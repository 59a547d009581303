use vstd::prelude::*;
use vstd::string::*;
use crate::script::{Script, ScriptView};

verus! {

/// A lifecycle event, sent by the workers and rendered by the output side.
#[derive(Debug, Clone, PartialEq, Eq)]
pub enum Event {
    /// The script exists and is about to run.
    Queued { title: String },
    /// The script ran; `output` holds the captured text where it failed.
    Completed { title: String, success: bool, elapsed_nanos: u64, output: Option<String> },
    /// The script could not be run at all (its path does not exist).
    Error { title: String, message: String },
    /// Every worker has finished: the output side finalizes.
    Terminate,
}

/// What an event is to the contracts.
pub enum EventView {
    Queued { title: Seq<char> },
    Completed { title: Seq<char>, success: bool, elapsed_nanos: u64, output: Option<Seq<char>> },
    Error { title: Seq<char>, message: Seq<char> },
    Terminate,
}

impl View for Event {
    type V = EventView;

    open spec fn view(&self) -> EventView {
        match self {
            Event::Queued { title } => EventView::Queued { title: title@ },
            Event::Completed { title, success, elapsed_nanos, output } => EventView::Completed {
                title: title@,
                success: *success,
                elapsed_nanos: *elapsed_nanos,
                output: match output {
                    Some(o) => Some(o@),
                    None => None,
                },
            },
            Event::Error { title, message } => EventView::Error { title: title@, message: message@ },
            Event::Terminate => EventView::Terminate,
        }
    }
}

/// What a finished run of a script captured.
#[derive(Debug, Clone, PartialEq, Eq)]
pub struct RunOutput {
    pub success: bool,
    pub elapsed_nanos: u64,
    pub stdout: Vec<u8>,
    pub stderr: Vec<u8>,
}

/// What a finished run is to the contracts.
pub struct RunOutputView {
    pub success: bool,
    pub elapsed_nanos: u64,
    pub stdout: Seq<u8>,
    pub stderr: Seq<u8>,
}

impl View for RunOutput {
    type V = RunOutputView;

    open spec fn view(&self) -> RunOutputView {
        RunOutputView {
            success: self.success,
            elapsed_nanos: self.elapsed_nanos,
            stdout: self.stdout@,
            stderr: self.stderr@,
        }
    }
}

/// The text that `String::from_utf8_lossy` makes of some bytes.
pub uninterp spec fn lossy_text(bytes: Seq<u8>) -> Seq<char>;

/// Relies on `String::from_utf8_lossy`: the text depends on the bytes alone,
/// and it is empty exactly when the bytes are (every byte is kept or replaced).
#[verifier::external_body]
fn decode_lossy(bytes: &Vec<u8>) -> (r: String)
    ensures
        r@ == lossy_text(bytes@),
        bytes@.len() == 0 <==> r@.len() == 0,
{
    String::from_utf8_lossy(bytes.as_slice()).into_owned()
}

/// `line` without one trailing carriage return.
pub open spec fn strip_cr(line: Seq<char>) -> Seq<char> {
    if line.len() > 0 && line.last() == '\r' {
        line.drop_last()
    } else {
        line
    }
}

/// The lines of `rest`, where `current` is the part of the current line read
/// so far: split at `\n`, one `\r` before a `\n` dropped, and no empty line
/// after a final `\n`.
pub open spec fn lines_from(rest: Seq<char>, current: Seq<char>) -> Seq<Seq<char>>
    decreases rest.len(),
{
    if rest.len() == 0 {
        if current.len() == 0 {
            seq![]
        } else {
            seq![current]
        }
    } else if rest[0] == '\n' {
        seq![strip_cr(current)] + lines_from(rest.skip(1), seq![])
    } else {
        lines_from(rest.skip(1), current.push(rest[0]))
    }
}

/// The lines of a text, as `str::lines` splits it.
pub open spec fn lines_of(text: Seq<char>) -> Seq<Seq<char>> {
    lines_from(text, seq![])
}

/// The lines joined with `\n` between them.
pub open spec fn join_lines(lines: Seq<Seq<char>>) -> Seq<char>
    decreases lines.len(),
{
    if lines.len() == 0 {
        seq![]
    } else if lines.len() == 1 {
        lines[0]
    } else {
        join_lines(lines.drop_last()) + seq!['\n'] + lines.last()
    }
}

/// A labelled block of captured text: nothing for an empty text, else the
/// header followed by the text's lines.
pub open spec fn block(header: Seq<char>, text: Seq<char>) -> Seq<Seq<char>> {
    if text.len() == 0 {
        seq![]
    } else {
        seq![header] + lines_of(text)
    }
}

/// The report of a failed run: the stdout block, then the stderr block.
pub open spec fn failure_text(stdout: Seq<char>, stderr: Seq<char>) -> Seq<char> {
    join_lines(block("Output:"@, stdout) + block("Error:"@, stderr))
}

pub open spec fn string_views(v: Seq<String>) -> Seq<Seq<char>> {
    v.map_values(|s: String| s@)
}

/// Appends the lines of `text` to `out`.
fn push_lines(out: &mut Vec<String>, text: &str)
    ensures
        string_views(final(out)@) == string_views(old(out)@) + lines_of(text@),
{
    let n = text.unicode_len();
    let mut start: usize = 0;
    let mut i: usize = 0;
    let ghost base = string_views(old(out)@);
    proof {
        assert(text@.skip(0) =~= text@);
        assert(text@.subrange(0, 0) =~= Seq::<char>::empty());
    }
    while i < n
        invariant
            n == text@.len(),
            start <= i <= n,
            base + lines_of(text@) == string_views(out@) + lines_from(
                text@.skip(i as int),
                text@.subrange(start as int, i as int),
            ),
        decreases n - i,
    {
        let c = text.get_char(i);
        let ghost cur = text@.subrange(start as int, i as int);
        proof {
            assert(text@.skip(i as int)[0] == c);
            assert(text@.skip(i as int).skip(1) =~= text@.skip(i + 1));
        }
        if c == '\n' {
            let mut end: usize = i;
            if end > start && text.get_char(end - 1) == '\r' {
                end = end - 1;
            }
            let line = String::from_str(text.substring_char(start, end));
            proof {
                assert(line@ =~= strip_cr(cur));
                assert(string_views(out@.push(line)) =~= string_views(out@).push(line@));
                assert(text@.subrange(i + 1, i + 1) =~= Seq::<char>::empty());
            }
            out.push(line);
            start = i + 1;
            i = i + 1;
            proof {
                assert(string_views(out@) + lines_from(
                    text@.skip(i as int),
                    text@.subrange(start as int, i as int),
                ) =~= string_views(out@).drop_last() + (seq![strip_cr(cur)] + lines_from(
                    text@.skip(i as int),
                    seq![],
                )));
            }
        } else {
            proof {
                assert(cur.push(c) =~= text@.subrange(start as int, i + 1));
            }
            i = i + 1;
        }
    }
    proof {
        assert(text@.skip(n as int) =~= Seq::<char>::empty());
    }
    if start < n {
        let line = String::from_str(text.substring_char(start, n));
        proof {
            assert(string_views(out@.push(line)) =~= string_views(out@).push(line@));
        }
        out.push(line);
    } else {
        proof {
            assert(text@.subrange(start as int, n as int) =~= Seq::<char>::empty());
        }
    }
    proof {
        assert(string_views(out@) =~= base + lines_of(text@));
    }
}

/// The lines joined into one text, with `\n` between them.
fn join_with_newlines(lines: &Vec<String>) -> (r: String)
    ensures
        r@ == join_lines(string_views(lines@)),
{
    let mut r = String::new();
    let mut i: usize = 0;
    proof {
        assert(string_views(lines@).take(0) =~= Seq::<Seq<char>>::empty());
    }
    while i < lines.len()
        invariant
            i <= lines@.len(),
            r@ == join_lines(string_views(lines@).take(i as int)),
        decreases lines@.len() - i,
    {
        let ghost prev = string_views(lines@).take(i as int);
        let ghost next = string_views(lines@).take(i + 1);
        proof {
            assert(next.drop_last() =~= prev);
            assert(next.len() == i + 1);
            assert(next.last() == lines@[i as int]@);
            assert(next[0] == lines@[0]@);
            reveal_strlit("\n");
        }
        if i > 0 {
            r.append("\n");
        } else {
            proof {
                assert(r@ =~= Seq::<char>::empty());
            }
        }
        r.append(lines[i].as_str());
        proof {
            assert(r@ =~= join_lines(next));
        }
        i = i + 1;
    }
    proof {
        assert(string_views(lines@).take(lines@.len() as int) =~= string_views(lines@));
    }
    r
}

/// Appends a labelled block for `text` to `out`: nothing when `text` is empty.
fn push_block(out: &mut Vec<String>, header: &str, text: &str)
    ensures
        string_views(final(out)@) == string_views(old(out)@) + block(header@, text@),
{
    if text.unicode_len() == 0 {
        proof {
            assert(string_views(old(out)@) + block(header@, text@) =~= string_views(old(out)@));
        }
        return;
    }
    let ghost before = string_views(out@);
    let h = String::from_str(header);
    out.push(h);
    proof {
        assert(string_views(out@) =~= before.push(header@));
    }
    push_lines(out, text);
    proof {
        assert(before.push(header@) + lines_of(text@) =~= before + block(header@, text@));
    }
}

/// The report of a failed run, from the text captured on stdout and on stderr:
/// a block `Output:` with the stdout lines where stdout is not empty, then a
/// block `Error:` with the stderr lines where stderr is not empty, all joined
/// with `\n`.
pub fn failure_output(stdout: &str, stderr: &str) -> (r: String)
    ensures
        r@ == failure_text(stdout@, stderr@),
{
    let mut lines: Vec<String> = Vec::new();
    proof {
        assert(string_views(lines@) =~= Seq::<Seq<char>>::empty());
    }
    push_block(&mut lines, "Output:", stdout);
    push_block(&mut lines, "Error:", stderr);
    proof {
        reveal_strlit("Output:");
        reveal_strlit("Error:");
        assert(string_views(lines@) =~= block("Output:"@, stdout@) + block("Error:"@, stderr@));
    }
    join_with_newlines(&lines)
}

/// The message of an `Error` event for a path that does not exist.
pub open spec fn missing_message(path: Seq<char>) -> Seq<char> {
    path + " does not exist"@
}

/// The first event of a script: `Queued` where its path exists, else an
/// `Error` that says the path does not exist.
pub open spec fn start_view(script: ScriptView, exists: bool) -> EventView {
    if exists {
        EventView::Queued { title: script.title }
    } else {
        EventView::Error { title: script.title, message: missing_message(script.path) }
    }
}

/// The `Completed` event of a run, from the text it captured.
pub open spec fn completed_view(
    title: Seq<char>,
    success: bool,
    elapsed_nanos: u64,
    stdout: Seq<char>,
    stderr: Seq<char>,
) -> EventView {
    EventView::Completed {
        title,
        success,
        elapsed_nanos,
        output: if success {
            None
        } else {
            Some(failure_text(stdout, stderr))
        },
    }
}

/// The `Completed` event of a run of the script.
pub open spec fn finish_view(script: ScriptView, run: RunOutputView) -> EventView {
    completed_view(
        script.title,
        run.success,
        run.elapsed_nanos,
        lossy_text(run.stdout),
        lossy_text(run.stderr),
    )
}

/// Every event that one script brings about: a lone `Error` where its path
/// does not exist, else `Queued` and then its `Completed`.
pub open spec fn job_events(script: ScriptView, exists: bool, run: RunOutputView) -> Seq<EventView> {
    if exists {
        seq![start_view(script, true), finish_view(script, run)]
    } else {
        seq![start_view(script, false)]
    }
}

/// The first event of a script, given whether its path exists. Where it does
/// not, the script is not to be run and this is its only event.
pub fn start_event(script: &Script, exists: bool) -> (r: Event)
    ensures
        r@ == start_view(script@, exists),
{
    if exists {
        Event::Queued { title: script.title.clone() }
    } else {
        let mut message = script.path.clone();
        message.append(" does not exist");
        proof {
            reveal_strlit(" does not exist");
        }
        Event::Error { title: script.title.clone(), message }
    }
}

/// The `Completed` event of a run, from the text captured on stdout and on
/// stderr; the output is there only where the run failed.
pub fn completed_event(
    title: &String,
    success: bool,
    elapsed_nanos: u64,
    stdout: &str,
    stderr: &str,
) -> (r: Event)
    ensures
        r@ == completed_view(title@, success, elapsed_nanos, stdout@, stderr@),
{
    let output = if success {
        None
    } else {
        Some(failure_output(stdout, stderr))
    };
    Event::Completed { title: title.clone(), success, elapsed_nanos, output }
}

/// The `Completed` event of a finished run of the script.
pub fn finish_event(script: &Script, run: &RunOutput) -> (r: Event)
    ensures
        r@ == finish_view(script@, run@),
{
    let stdout = decode_lossy(&run.stdout);
    let stderr = decode_lossy(&run.stderr);
    completed_event(&script.title, run.success, run.elapsed_nanos, stdout.as_str(), stderr.as_str())
}

} // verus!
