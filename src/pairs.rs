use vstd::prelude::*;
use vstd::string::*;

verus! {

/// How often `c` occurs in `s`.
pub open spec fn occurrences(s: Seq<char>, c: char) -> nat
    decreases s.len(),
{
    if s.len() == 0 {
        0
    } else {
        occurrences(s.drop_last(), c) + if s.last() == c { 1nat } else { 0nat }
    }
}

/// `s` split around its only occurrence of `sep`: `None` unless `sep` occurs
/// exactly once.
pub open spec fn split_exact(s: Seq<char>, sep: char) -> Option<(Seq<char>, Seq<char>)> {
    if occurrences(s, sep) == 1 {
        let i = choose|i: int| 0 <= i < s.len() && s[i] == sep;
        Some((s.take(i), s.skip(i + 1)))
    } else {
        None
    }
}

proof fn lemma_occurrences_append(a: Seq<char>, b: Seq<char>, c: char)
    ensures
        occurrences(a + b, c) == occurrences(a, c) + occurrences(b, c),
    decreases b.len(),
{
    if b.len() == 0 {
        assert(a + b =~= a);
    } else {
        assert((a + b).drop_last() =~= a + b.drop_last());
        lemma_occurrences_append(a, b.drop_last(), c);
    }
}

proof fn lemma_occurrences_zero(s: Seq<char>, c: char)
    ensures
        occurrences(s, c) == 0 <==> forall|i: int| 0 <= i < s.len() ==> s[i] != c,
    decreases s.len(),
{
    if s.len() > 0 {
        lemma_occurrences_zero(s.drop_last(), c);
        if occurrences(s, c) == 0 {
            assert forall|i: int| 0 <= i < s.len() implies s[i] != c by {
                if i < s.len() - 1 {
                    assert(s.drop_last()[i] == s[i]);
                }
            }
        } else if forall|i: int| 0 <= i < s.len() ==> s[i] != c {
            assert forall|i: int| 0 <= i < s.drop_last().len() implies s.drop_last()[i] != c by {
                assert(s.drop_last()[i] == s[i]);
            }
        }
    }
}

/// Splits `s` at its only occurrence of `sep`; `None` when `sep` occurs zero
/// times or more than once.
fn split_at_only(s: &str, sep: char) -> (r: Option<(String, String)>)
    ensures
        match (r, split_exact(s@, sep)) {
            (Some(p), Some(q)) => p.0@ == q.0 && p.1@ == q.1,
            (None, None) => true,
            _ => false,
        },
{
    let n = s.unicode_len();
    let mut count: usize = 0;
    let mut at: usize = 0;
    let mut i: usize = 0;
    while i < n
        invariant
            n == s@.len(),
            i <= n,
            count <= i,
            count == occurrences(s@.take(i as int), sep),
            count >= 1 ==> at < i && s@[at as int] == sep
                && occurrences(s@.take(at as int), sep) == 0,
        decreases n - i,
    {
        let c = s.get_char(i);
        proof {
            assert(s@.take(i + 1) =~= s@.take(i as int).push(c));
            assert(s@.take(i + 1).drop_last() =~= s@.take(i as int));
        }
        if c == sep {
            if count == 0 {
                at = i;
            }
            count = count + 1;
        }
        i = i + 1;
    }
    proof {
        assert(s@.take(n as int) =~= s@);
    }
    if count != 1 {
        return None;
    }
    let left = String::from_str(s.substring_char(0, at));
    let right = String::from_str(s.substring_char(at + 1, n));
    proof {
        let j = choose|j: int| 0 <= j < s@.len() && s@[j] == sep;
        assert(s@ =~= s@.take(at as int) + seq![sep] + s@.skip(at + 1));
        assert(occurrences(seq![sep], sep) == 1) by {
            assert(seq![sep].drop_last() =~= Seq::<char>::empty());
            assert(occurrences(Seq::<char>::empty(), sep) == 0);
            assert(seq![sep].last() == sep);
        }
        lemma_occurrences_append(s@.take(at as int), seq![sep], sep);
        lemma_occurrences_append(s@.take(at as int) + seq![sep], s@.skip(at + 1), sep);
        lemma_occurrences_zero(s@.skip(at + 1), sep);
        lemma_occurrences_zero(s@.take(at as int), sep);
        if j < at {
            assert(s@.take(at as int)[j] == sep);
        } else if j > at {
            assert(s@.skip(at + 1)[j - at - 1] == sep);
        }
    }
    Some((left, right))
}

/// Reads a job argument `title=path`: exactly one `=`, with the title before it
/// and the path after it.
pub fn parse_title_path_pair(s: &str) -> (r: Result<(String, String), String>)
    ensures
        match r {
            Ok(p) => split_exact(s@, '=') == Some((p.0@, p.1@)),
            Err(m) => split_exact(s@, '=') is None
                && m@ == "Each pair must be in the format 'title=path'"@,
        },
{
    match split_at_only(s, '=') {
        Some(p) => Ok(p),
        None => Err(String::from_str("Each pair must be in the format 'title=path'")),
    }
}

/// Reads a label argument `key:value`: exactly one `:`, with the key before it
/// and the value after it.
pub fn parse_label_pair(s: &str) -> (r: Result<(String, String), String>)
    ensures
        match r {
            Ok(p) => split_exact(s@, ':') == Some((p.0@, p.1@)),
            Err(m) => split_exact(s@, ':') is None
                && m@ == "Key-value pair must be in the format 'key:value'"@,
        },
{
    match split_at_only(s, ':') {
        Some(p) => Ok(p),
        None => Err(String::from_str("Key-value pair must be in the format 'key:value'")),
    }
}

} // verus!
