use script_exec::{decimal_text, metric_lines, plain_line, summary_line, Event, Report};

fn owned(a: &str, b: &str) -> (String, String) {
    (a.to_string(), b.to_string())
}

#[test]
fn decimal_numbers() {
    assert_eq!(decimal_text(0), "0");
    assert_eq!(decimal_text(7), "7");
    assert_eq!(decimal_text(1050), "1050");
    assert_eq!(decimal_text(u64::MAX), "18446744073709551615");
}

#[test]
fn metric_samples_carry_title_and_labels() {
    let labels = vec![owned("host", "alpha"), owned("env", "prod")];
    let text = metric_lines("disk", true, 12_345_678, &labels);
    assert_eq!(
        text,
        "healthcheck_success{title=\"disk\",host=\"alpha\",env=\"prod\"} 1\n\
         healthcheck_duration_milliseconds{title=\"disk\",host=\"alpha\",env=\"prod\"} 12\n"
    );
}

#[test]
fn metric_values_are_escaped() {
    let text = metric_lines("a\"b", false, 999_999, &vec![owned("k", "x\\y\nz")]);
    assert_eq!(
        text,
        "healthcheck_success{title=\"a\\\"b\",k=\"x\\\\y\\nz\"} 0\n\
         healthcheck_duration_milliseconds{title=\"a\\\"b\",k=\"x\\\\y\\nz\"} 0\n"
    );
}

#[test]
fn plain_lines_per_event() {
    let q = Event::Queued { title: "disk".to_string() };
    assert_eq!(plain_line(&q), Some("disk: running".to_string()));
    let ok = Event::Completed { title: "disk".to_string(), success: true, elapsed_nanos: 2_500_000, output: None };
    assert_eq!(plain_line(&ok), Some("disk: ok (2 ms)".to_string()));
    let bad = Event::Completed {
        title: "net".to_string(),
        success: false,
        elapsed_nanos: 0,
        output: Some("Output:\ndown".to_string()),
    };
    assert_eq!(plain_line(&bad), Some("net: failed (0 ms)\nOutput:\ndown".to_string()));
    let err = Event::Error { title: "x".to_string(), message: "/x does not exist".to_string() };
    assert_eq!(plain_line(&err), Some("x: error: /x does not exist".to_string()));
    assert_eq!(plain_line(&Event::Terminate), None);
}

#[test]
fn summary_counts() {
    let mut r = Report::new();
    r.apply(&Event::Completed { title: "a".to_string(), success: true, elapsed_nanos: 0, output: None });
    r.apply(&Event::Error { title: "b".to_string(), message: "m".to_string() });
    assert_eq!(summary_line(&r), "1 passed, 0 failed, 1 missing");
}
