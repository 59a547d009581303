use script_exec::{
    completed_event, failure_output, finish_event, start_event, Event, JobQueue, Report, RunOutput,
    Script,
};

fn pair(a: &str, b: &str) -> (String, String) {
    (a.to_string(), b.to_string())
}

fn script(title: &str, path: &str) -> Script {
    Script::titled(title.to_string(), path.to_string())
}

fn run(success: bool, stdout: &[u8], stderr: &[u8]) -> RunOutput {
    RunOutput { success, elapsed_nanos: 7, stdout: stdout.to_vec(), stderr: stderr.to_vec() }
}

fn is_terminal(e: &Event) -> bool {
    matches!(e, Event::Completed { .. } | Event::Error { .. })
}

#[test]
fn empty_job_list_gives_no_queue() {
    assert!(JobQueue::from_pairs(vec![]).is_none());
}

#[test]
fn queue_hands_out_each_job_once_in_order() {
    let mut q = JobQueue::from_pairs(vec![pair("a", "/a"), pair("b", "/b"), pair("c", "/c")]).unwrap();
    assert_eq!(q.len(), 3);
    let mut titles = Vec::new();
    while let Some(s) = q.take() {
        titles.push(s.title);
    }
    assert_eq!(titles, vec!["a", "b", "c"]);
    assert_eq!(q.remaining(), 0);
    assert!(q.take().is_none());
}

#[test]
fn missing_path_gives_only_an_error() {
    let s = script("disk", "/no/such/file");
    let e = start_event(&s, false);
    assert_eq!(
        e,
        Event::Error { title: "disk".to_string(), message: "/no/such/file does not exist".to_string() }
    );
    assert!(!matches!(e, Event::Completed { .. }));
}

#[test]
fn existing_path_is_queued() {
    let s = script("disk", "/bin/true");
    assert_eq!(start_event(&s, true), Event::Queued { title: "disk".to_string() });
}

#[test]
fn success_with_empty_output_has_no_output() {
    let s = script("ok", "/ok");
    let e = finish_event(&s, &run(true, b"", b""));
    assert_eq!(
        e,
        Event::Completed { title: "ok".to_string(), success: true, elapsed_nanos: 7, output: None }
    );
}

#[test]
fn failure_with_stdout_lines() {
    let s = script("bad", "/bad");
    let e = finish_event(&s, &run(false, b"a\nb", b""));
    assert_eq!(
        e,
        Event::Completed {
            title: "bad".to_string(),
            success: false,
            elapsed_nanos: 7,
            output: Some("Output:\na\nb".to_string()),
        }
    );
}

#[test]
fn failure_output_blocks() {
    assert_eq!(failure_output("a\nb", ""), "Output:\na\nb");
    assert_eq!(failure_output("", "boom\n"), "Error:\nboom");
    assert_eq!(failure_output("x\r\ny\n", "e1\ne2"), "Output:\nx\ny\nError:\ne1\ne2");
    assert_eq!(failure_output("", ""), "");
    assert_eq!(failure_output("\n", ""), "Output:\n");
    assert_eq!(failure_output("a\r", ""), "Output:\na\r");
}

#[test]
fn failure_output_decodes_invalid_bytes() {
    let s = script("bad", "/bad");
    let e = finish_event(&s, &run(false, b"", &[0xff, b'x']));
    assert_eq!(
        e,
        Event::Completed {
            title: "bad".to_string(),
            success: false,
            elapsed_nanos: 7,
            output: Some("Error:\n\u{fffd}x".to_string()),
        }
    );
}

#[test]
fn completed_event_keeps_output_only_on_failure() {
    let t = "j".to_string();
    assert_eq!(
        completed_event(&t, true, 1, "noise", "more"),
        Event::Completed { title: "j".to_string(), success: true, elapsed_nanos: 1, output: None }
    );
    assert_eq!(
        completed_event(&t, false, 2, "", "e"),
        Event::Completed {
            title: "j".to_string(),
            success: false,
            elapsed_nanos: 2,
            output: Some("Error:\ne".to_string()),
        }
    );
}

fn report_of(events: &[Event]) -> (Report, usize) {
    let mut r = Report::new();
    let mut finalizations = 0;
    for e in events {
        if r.apply(e) {
            finalizations += 1;
        }
    }
    (r, finalizations)
}

fn events_of(s: &Script, exists: bool, out: &RunOutput) -> Vec<Event> {
    let first = start_event(s, exists);
    if exists {
        vec![first, finish_event(s, out)]
    } else {
        vec![first]
    }
}

#[test]
fn one_success_one_failure_exits_one_in_either_order() {
    let ok = events_of(&script("ok", "/ok"), true, &run(true, b"", b""));
    let bad = events_of(&script("bad", "/bad"), true, &run(false, b"", b""));
    let mut first = ok.clone();
    first.extend(bad.clone());
    let mut second = bad;
    second.extend(ok);
    assert_eq!(report_of(&first).0.exit_code(), 1);
    assert_eq!(report_of(&second).0.exit_code(), 1);
}

#[test]
fn all_passing_exits_zero() {
    let mut events = events_of(&script("a", "/a"), true, &run(true, b"", b""));
    events.extend(events_of(&script("b", "/b"), true, &run(true, b"x", b"")));
    let (r, _) = report_of(&events);
    assert!(r.success());
    assert_eq!(r.exit_code(), 0);
}

#[test]
fn every_job_ends_once_whatever_the_interleaving() {
    let a = events_of(&script("a", "/a"), true, &run(true, b"", b""));
    let b = events_of(&script("b", "/b"), false, &run(true, b"", b""));
    let c = events_of(&script("c", "/c"), true, &run(false, b"o", b""));
    let interleaved = vec![a[0].clone(), c[0].clone(), b[0].clone(), c[1].clone(), a[1].clone()];
    assert_eq!(interleaved.iter().filter(|e| is_terminal(e)).count(), 3);
    let (r, _) = report_of(&interleaved);
    assert_eq!(r.passed() + r.failed() + r.missing(), 3);
    assert_eq!((r.queued(), r.passed(), r.failed(), r.missing()), (2, 1, 1, 1));
    let mut sequential = a.clone();
    sequential.extend(b.clone());
    sequential.extend(c.clone());
    let (s, _) = report_of(&sequential);
    assert_eq!(s.success(), r.success());
    assert!(!s.success());
}

#[test]
fn terminate_finalizes_once_after_both_jobs() {
    let mut events = events_of(&script("a", "/a"), true, &run(true, b"", b""));
    events.extend(events_of(&script("b", "/b"), true, &run(false, b"", b"e")));
    events.push(Event::Terminate);
    events.push(Event::Terminate);
    events.push(Event::Queued { title: "late".to_string() });
    let mut r = Report::new();
    let mut finalized_at = Vec::new();
    for (i, e) in events.iter().enumerate() {
        if r.apply(e) {
            assert_eq!(r.passed() + r.failed() + r.missing(), 2);
            finalized_at.push(i);
        }
    }
    assert_eq!(finalized_at, vec![4]);
    assert!(r.finished());
    assert_eq!(r.queued(), 2);
}
