use vstd::prelude::*;
use vstd::string::*;
use crate::report::{Report, ReportView};
use crate::labels::pair_views;
use crate::runner::{Event, EventView};

verus! {

/// The character of a decimal digit.
pub open spec fn digit_char(d: nat) -> char {
    "0123456789"@[d as int]
}

/// The decimal notation of a number, without leading zeros.
pub open spec fn decimal(n: nat) -> Seq<char>
    decreases n,
{
    if n < 10 {
        seq![digit_char(n)]
    } else {
        decimal(n / 10).push(digit_char(n % 10))
    }
}

/// The decimal notation of `n`.
pub fn decimal_text(n: u64) -> (r: String)
    ensures
        r@ == decimal(n as nat),
    decreases n,
{
    let digits = "0123456789";
    proof {
        reveal_strlit("0123456789");
    }
    let d: usize = (n % 10) as usize;
    let one = digits.substring_char(d, d + 1);
    proof {
        assert(one@ =~= seq![digit_char(d as nat)]);
    }
    if n < 10 {
        String::from_str(one)
    } else {
        let mut r = decimal_text(n / 10);
        r.append(one);
        r
    }
}

/// A label value in the exposition format: backslash, double quote and line
/// feed escaped with a backslash.
pub open spec fn escaped(v: Seq<char>) -> Seq<char>
    decreases v.len(),
{
    if v.len() == 0 {
        seq![]
    } else {
        escaped(v.drop_last()) + escaped_char(v.last())
    }
}

pub open spec fn escaped_char(c: char) -> Seq<char> {
    if c == '\\' {
        seq!['\\', '\\']
    } else if c == '"' {
        seq!['\\', '"']
    } else if c == '\n' {
        seq!['\\', 'n']
    } else {
        seq![c]
    }
}

/// Appends `v`, escaped, to `out`.
fn append_escaped(out: &mut String, v: &str)
    ensures
        final(out)@ == old(out)@ + escaped(v@),
{
    let n = v.unicode_len();
    let mut i: usize = 0;
    proof {
        assert(v@.take(0) =~= Seq::<char>::empty());
        assert(old(out)@ + escaped(Seq::<char>::empty()) =~= old(out)@);
    }
    while i < n
        invariant
            n == v@.len(),
            i <= n,
            out@ == old(out)@ + escaped(v@.take(i as int)),
        decreases n - i,
    {
        let c = v.get_char(i);
        let piece: &str = if c == '\\' {
            "\\\\"
        } else if c == '"' {
            "\\\""
        } else if c == '\n' {
            "\\n"
        } else {
            v.substring_char(i, i + 1)
        };
        proof {
            reveal_strlit("\\\\");
            reveal_strlit("\\\"");
            reveal_strlit("\\n");
            assert(piece@ =~= escaped_char(c));
            assert(v@.take(i + 1).drop_last() =~= v@.take(i as int));
        }
        out.append(piece);
        proof {
            assert(out@ =~= old(out)@ + escaped(v@.take(i + 1)));
        }
        i = i + 1;
    }
    proof {
        assert(v@.take(n as int) =~= v@);
    }
}

/// The labels of one sample: the job's title, then the label set in order.
pub open spec fn label_block(title: Seq<char>, labels: Seq<(Seq<char>, Seq<char>)>) -> Seq<char> {
    "{title=\""@ + escaped(title) + "\""@ + label_tail(labels) + "}"@
}

/// `,key="value"` for each label, in order.
pub open spec fn label_tail(labels: Seq<(Seq<char>, Seq<char>)>) -> Seq<char>
    decreases labels.len(),
{
    if labels.len() == 0 {
        seq![]
    } else {
        label_tail(labels.drop_last()) + ","@ + labels.last().0 + "=\""@ + escaped(labels.last().1)
            + "\""@
    }
}

/// The two samples of a job: whether it succeeded (1 or 0) and how long it
/// ran, in whole milliseconds.
pub open spec fn metric_text(
    title: Seq<char>,
    success: bool,
    elapsed_nanos: u64,
    labels: Seq<(Seq<char>, Seq<char>)>,
) -> Seq<char> {
    "healthcheck_success"@ + label_block(title, labels) + " "@ + (if success {
        "1"@
    } else {
        "0"@
    }) + "\n"@ + "healthcheck_duration_milliseconds"@ + label_block(title, labels) + " "@
        + decimal((elapsed_nanos / 1_000_000) as nat) + "\n"@
}

fn append_label_block(out: &mut String, title: &str, labels: &Vec<(String, String)>)
    ensures
        final(out)@ == old(out)@ + label_block(title@, pair_views(labels@)),
{
    out.append("{title=\"");
    append_escaped(out, title);
    out.append("\"");
    let ghost head = out@;
    let mut i: usize = 0;
    proof {
        assert(pair_views(labels@).take(0) =~= Seq::<(Seq<char>, Seq<char>)>::empty());
        assert(head + label_tail(Seq::<(Seq<char>, Seq<char>)>::empty()) =~= head);
    }
    while i < labels.len()
        invariant
            i <= labels@.len(),
            out@ == head + label_tail(pair_views(labels@).take(i as int)),
        decreases labels@.len() - i,
    {
        let ghost before = out@;
        out.append(",");
        out.append(labels[i].0.as_str());
        out.append("=\"");
        append_escaped(out, labels[i].1.as_str());
        out.append("\"");
        proof {
            let next = pair_views(labels@).take(i + 1);
            assert(next.drop_last() =~= pair_views(labels@).take(i as int));
            assert(next.last() == (labels@[i as int].0@, labels@[i as int].1@));
            assert(out@ =~= head + label_tail(next));
        }
        i = i + 1;
    }
    out.append("}");
    proof {
        assert(pair_views(labels@).take(labels@.len() as int) =~= pair_views(labels@));
        reveal_strlit("{title=\"");
        reveal_strlit("\"");
        reveal_strlit("}");
        assert(out@ =~= old(out)@ + label_block(title@, pair_views(labels@)));
    }
}

/// The metric samples of one finished job, annotated with its title and the
/// label set.
pub fn metric_lines(
    title: &str,
    success: bool,
    elapsed_nanos: u64,
    labels: &Vec<(String, String)>,
) -> (r: String)
    ensures
        r@ == metric_text(title@, success, elapsed_nanos, pair_views(labels@)),
{
    let mut r = String::from_str("healthcheck_success");
    append_label_block(&mut r, title, labels);
    r.append(" ");
    r.append(if success { "1" } else { "0" });
    r.append("\n");
    r.append("healthcheck_duration_milliseconds");
    append_label_block(&mut r, title, labels);
    r.append(" ");
    let ms = decimal_text(elapsed_nanos / 1_000_000);
    r.append(ms.as_str());
    r.append("\n");
    proof {
        reveal_strlit("healthcheck_success");
        reveal_strlit("healthcheck_duration_milliseconds");
        reveal_strlit(" ");
        reveal_strlit("1");
        reveal_strlit("0");
        reveal_strlit("\n");
        assert(r@ =~= metric_text(title@, success, elapsed_nanos, pair_views(labels@)));
    }
    r
}

/// `(<n> ms)` for a run time, in whole milliseconds.
pub open spec fn millis_text(elapsed_nanos: u64) -> Seq<char> {
    "("@ + decimal((elapsed_nanos / 1_000_000) as nat) + " ms)"@
}

/// The plain-text line of an event; `Terminate` has none (the summary stands
/// for it).
pub open spec fn plain_text(e: EventView) -> Option<Seq<char>> {
    match e {
        EventView::Queued { title } => Some(title + ": running"@),
        EventView::Completed { title, success, elapsed_nanos, output } => Some(
            title + if success {
                ": ok "@
            } else {
                ": failed "@
            } + millis_text(elapsed_nanos) + match output {
                Some(o) => "\n"@ + o,
                None => Seq::<char>::empty(),
            },
        ),
        EventView::Error { title, message } => Some(title + ": error: "@ + message),
        EventView::Terminate => None,
    }
}

/// The plain-text line of an event, or `None` for `Terminate`.
pub fn plain_line(e: &Event) -> (r: Option<String>)
    ensures
        match (r, plain_text(e@)) {
            (Some(s), Some(t)) => s@ == t,
            (None, None) => true,
            _ => false,
        },
{
    proof {
        reveal_strlit(": running");
        reveal_strlit(": ok ");
        reveal_strlit(": failed ");
        reveal_strlit("(");
        reveal_strlit(" ms)");
        reveal_strlit("\n");
        reveal_strlit(": error: ");
    }
    match e {
        Event::Queued { title } => {
            let mut s = title.clone();
            s.append(": running");
            Some(s)
        },
        Event::Completed { title, success, elapsed_nanos, output } => {
            let mut s = title.clone();
            s.append(if *success { ": ok " } else { ": failed " });
            s.append("(");
            let ms = decimal_text(*elapsed_nanos / 1_000_000);
            s.append(ms.as_str());
            s.append(" ms)");
            match output {
                Some(o) => {
                    s.append("\n");
                    s.append(o.as_str());
                },
                None => {},
            }
            proof {
                assert(Some(s@) == plain_text(e@));
            }
            Some(s)
        },
        Event::Error { title, message } => {
            let mut s = title.clone();
            s.append(": error: ");
            s.append(message.as_str());
            Some(s)
        },
        Event::Terminate => None,
    }
}

/// The closing summary of a report.
pub open spec fn summary_text(r: ReportView) -> Seq<char> {
    decimal(r.passed) + " passed, "@ + decimal(r.failed) + " failed, "@ + decimal(r.missing)
        + " missing"@
}

/// The closing summary: how many scripts passed, failed and were missing.
pub fn summary_line(r: &Report) -> (s: String)
    ensures
        s@ == summary_text(r@),
{
    let mut s = decimal_text(r.passed() as u64);
    s.append(" passed, ");
    let f = decimal_text(r.failed() as u64);
    s.append(f.as_str());
    s.append(" failed, ");
    let m = decimal_text(r.missing() as u64);
    s.append(m.as_str());
    s.append(" missing");
    proof {
        reveal_strlit(" passed, ");
        reveal_strlit(" failed, ");
        reveal_strlit(" missing");
        assert(s@ =~= summary_text(r@));
    }
    s
}

} // verus!
