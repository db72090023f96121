//! Small operations on strings, seen as sequences of characters.
use vstd::prelude::*;
use vstd::string::*;

verus! {

/// Relies on `String::pop`: it removes the last character and returns it, or
/// returns `None` and leaves an empty string as it is.
#[verifier::external_body]
pub(crate) fn pop_char(s: &mut String) -> (r: Option<char>)
    ensures
        old(s)@.len() == 0 ==> r is None && final(s)@ == old(s)@,
        old(s)@.len() > 0 ==> r == Some(old(s)@.last()) && final(s)@ == old(s)@.drop_last(),
{
    s.pop()
}

/// Relies on `str::starts_with` with a string pattern: whether `prefix` is a
/// prefix of `s`.
#[verifier::external_body]
pub(crate) fn starts_with(s: &str, prefix: &str) -> (r: bool)
    ensures
        r == prefix@.is_prefix_of(s@),
{
    s.starts_with(prefix)
}

/// The index of the first line feed in `s` at or after `i`, or the length of
/// `s` where there is none.
pub open spec fn line_end(s: Seq<char>, i: nat) -> nat
    decreases s.len() - i,
{
    if i >= s.len() || s[i as int] == '\n' {
        i
    } else {
        line_end(s, i + 1)
    }
}

/// A line without the carriage return that ended it, if one did.
pub open spec fn without_cr(line: Seq<char>) -> Seq<char> {
    if line.len() > 0 && line.last() == '\r' {
        line.drop_last()
    } else {
        line
    }
}

/// The lines of a text: it is split at each line feed, a carriage return
/// just before a line feed is dropped, and a line feed at the very end starts
/// no further line. An empty text has no lines.
pub open spec fn lines_of(s: Seq<char>) -> Seq<Seq<char>>
    decreases s.len(),
{
    if s.len() == 0 {
        Seq::empty()
    } else {
        let e = line_end(s, 0);
        if e < s.len() {
            seq![without_cr(s.subrange(0, e as int))] + lines_of(s.subrange(e + 1int, s.len() as int))
        } else {
            seq![s]
        }
    }
}

proof fn lemma_line_end(s: Seq<char>, i: nat, m: nat)
    requires
        i <= m <= s.len(),
        forall|k: int| i <= k < m ==> s[k] != '\n',
        m == s.len() || s[m as int] == '\n',
    ensures
        line_end(s, i) == m,
    decreases m - i,
{
    if i < m {
        lemma_line_end(s, i + 1, m);
    }
}

/// The lines of `s`, as `str::lines` gives them.
pub fn split_lines(s: &str) -> (r: Vec<String>)
    ensures
        r@.map_values(|l: String| l@) == lines_of(s@),
{
    let n = s.unicode_len();
    let mut out: Vec<String> = Vec::new();
    let mut start: usize = 0;
    assert(s@.subrange(0, n as int) =~= s@);
    assert(lines_of(s@) =~= out@.map_values(|l: String| l@) + lines_of(s@.subrange(0, n as int)));
    while start < n
        invariant
            start <= n,
            n == s@.len(),
            lines_of(s@) == out@.map_values(|l: String| l@) + lines_of(
                s@.subrange(start as int, n as int),
            ),
        decreases n - start,
    {
        let mut end = start;
        while end < n && s.get_char(end) != '\n'
            invariant
                start <= end <= n,
                n == s@.len(),
                forall|k: int| start <= k < end ==> s@[k] != '\n',
            decreases n - end,
        {
            end += 1;
        }
        let ghost rest = s@.subrange(start as int, n as int);
        proof {
            lemma_line_end(rest, 0, (end - start) as nat);
        }
        let ghost before = out@.map_values(|l: String| l@);
        if end < n {
            let mut stop = end;
            if end > start && s.get_char(end - 1) == '\r' {
                stop = end - 1;
            }
            let line = String::from_str(s.substring_char(start, stop));
            assert(line@ == without_cr(rest.subrange(0, (end - start) as int)));
            assert(rest.subrange((end - start) + 1, rest.len() as int) =~= s@.subrange(
                end + 1,
                n as int,
            ));
            out.push(line);
            assert(out@.map_values(|l: String| l@) =~= before.push(line@));
            start = end + 1;
            assert(lines_of(s@) =~= out@.map_values(|l: String| l@) + lines_of(
                s@.subrange(start as int, n as int),
            ));
        } else {
            let line = String::from_str(s.substring_char(start, end));
            assert(line@ =~= rest);
            out.push(line);
            assert(out@.map_values(|l: String| l@) =~= before.push(line@));
            start = end;
            assert(lines_of(s@.subrange(start as int, n as int)) =~= Seq::empty());
            assert(lines_of(s@) =~= out@.map_values(|l: String| l@) + lines_of(
                s@.subrange(start as int, n as int),
            ));
        }
    }
    assert(lines_of(s@.subrange(start as int, n as int)) =~= Seq::empty());
    assert(out@.map_values(|l: String| l@) =~= lines_of(s@));
    out
}

} // verus!
