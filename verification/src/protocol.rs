//! Classification of the lines the worker process writes on its output
//! pipe: the two sentinel lines that end one request's response, and the
//! pass-through diagnostics that are not protocol-significant.

use vstd::prelude::*;
use vstd::string::StrSliceExecFns;

verus! {

/// The characters that trimming removes from the ends of a line: the
/// Unicode characters with the White_Space property.
pub open spec fn is_wspace(c: char) -> bool {
    c == '\u{9}' || c == '\u{a}' || c == '\u{b}' || c == '\u{c}' || c == '\u{d}' || c == ' ' || c
        == '\u{85}' || c == '\u{a0}' || c == '\u{1680}' || c == '\u{2000}' || c == '\u{2001}' || c
        == '\u{2002}' || c == '\u{2003}' || c == '\u{2004}' || c == '\u{2005}' || c == '\u{2006}'
        || c == '\u{2007}' || c == '\u{2008}' || c == '\u{2009}' || c == '\u{200a}' || c
        == '\u{2028}' || c == '\u{2029}' || c == '\u{202f}' || c == '\u{205f}' || c == '\u{3000}'
}

fn char_is_wspace(c: char) -> (b: bool)
    ensures
        b == is_wspace(c),
{
    c == '\u{9}' || c == '\u{a}' || c == '\u{b}' || c == '\u{c}' || c == '\u{d}' || c == ' ' || c
        == '\u{85}' || c == '\u{a0}' || c == '\u{1680}' || c == '\u{2000}' || c == '\u{2001}' || c
        == '\u{2002}' || c == '\u{2003}' || c == '\u{2004}' || c == '\u{2005}' || c == '\u{2006}'
        || c == '\u{2007}' || c == '\u{2008}' || c == '\u{2009}' || c == '\u{200a}' || c
        == '\u{2028}' || c == '\u{2029}' || c == '\u{202f}' || c == '\u{205f}' || c == '\u{3000}'
}

/// `s` with its leading whitespace removed.
pub open spec fn trim_start_of(s: Seq<char>) -> Seq<char>
    decreases s.len(),
{
    if s.len() > 0 && is_wspace(s[0]) {
        trim_start_of(s.drop_first())
    } else {
        s
    }
}

/// `s` with its trailing whitespace removed.
pub open spec fn trim_end_of(s: Seq<char>) -> Seq<char>
    decreases s.len(),
{
    if s.len() > 0 && is_wspace(s.last()) {
        trim_end_of(s.drop_last())
    } else {
        s
    }
}

/// `s` with leading and trailing whitespace removed, as `str::trim` leaves
/// a line.
pub open spec fn trim_of(s: Seq<char>) -> Seq<char> {
    trim_end_of(trim_start_of(s))
}

/// A line whose trimmed content is exactly the success sentinel `ok`.
pub open spec fn is_success_line(line: Seq<char>) -> bool {
    trim_of(line) == "ok"@
}

/// A line whose trimmed content is exactly the failure sentinel `err`.
pub open spec fn is_failure_line(line: Seq<char>) -> bool {
    trim_of(line) == "err"@
}

proof fn lemma_trim_start_at(s: Seq<char>, lo: int)
    requires
        0 <= lo <= s.len(),
        forall|j: int| 0 <= j < lo ==> is_wspace(s[j]),
        lo < s.len() ==> !is_wspace(s[lo]),
    ensures
        trim_start_of(s) == s.skip(lo),
    decreases lo,
{
    if lo == 0 {
        assert(s.skip(0) =~= s);
    } else {
        assert(is_wspace(s[0]));
        let rest = s.drop_first();
        assert forall|j: int| 0 <= j < lo - 1 implies is_wspace(rest[j]) by {
            assert(rest[j] == s[j + 1]);
        }
        assert(lo - 1 < rest.len() ==> !is_wspace(rest[lo - 1]));
        lemma_trim_start_at(rest, lo - 1);
        assert(rest.skip(lo - 1) =~= s.skip(lo));
    }
}

proof fn lemma_trim_end_at(s: Seq<char>, hi: int)
    requires
        0 <= hi <= s.len(),
        forall|j: int| hi <= j < s.len() ==> is_wspace(s[j]),
        hi > 0 ==> !is_wspace(s[hi - 1]),
    ensures
        trim_end_of(s) == s.take(hi),
    decreases s.len() - hi,
{
    if hi == s.len() {
        assert(s.take(hi) =~= s);
    } else {
        assert(is_wspace(s.last()));
        let head = s.drop_last();
        assert forall|j: int| hi <= j < head.len() implies is_wspace(head[j]) by {
            assert(head[j] == s[j]);
        }
        lemma_trim_end_at(head, hi);
        assert(head.take(hi) =~= s.take(hi));
    }
}

proof fn lemma_trim_between(s: Seq<char>, lo: int, hi: int)
    requires
        0 <= lo <= hi <= s.len(),
        forall|j: int| 0 <= j < lo ==> is_wspace(s[j]),
        forall|j: int| hi <= j < s.len() ==> is_wspace(s[j]),
        lo < s.len() ==> !is_wspace(s[lo]),
        hi > lo ==> !is_wspace(s[hi - 1]),
    ensures
        trim_of(s) == s.subrange(lo, hi),
{
    lemma_trim_start_at(s, lo);
    let t = s.skip(lo);
    assert forall|j: int| hi - lo <= j < t.len() implies is_wspace(t[j]) by {
        assert(t[j] == s[j + lo]);
    }
    assert(hi - lo > 0 ==> !is_wspace(t[hi - lo - 1]));
    lemma_trim_end_at(t, hi - lo);
    assert(t.take(hi - lo) =~= s.subrange(lo, hi));
}

/// One line of the worker's response, parsed: a sentinel that ends the
/// exchange with success or failure, or a pass-through line carrying the
/// worker's own output verbatim.
#[derive(Debug, PartialEq, Eq)]
pub enum ProtocolLine {
    Success,
    Failure,
    PassThrough(String),
}

/// Parses one response line. A line whose trimmed content is exactly `ok`
/// is the success sentinel and one whose trimmed content is exactly `err`
/// is the failure sentinel; every other line is pass-through, handed back
/// verbatim and untrimmed.
pub fn classify_line(line: String) -> (r: ProtocolLine)
    ensures
        r is Success <==> is_success_line(line@),
        r is Failure <==> is_failure_line(line@),
        r matches ProtocolLine::PassThrough(t) ==> t == line,
{
    let s = line.as_str();
    let n = s.unicode_len();
    let mut lo: usize = 0;
    while lo < n && char_is_wspace(s.get_char(lo))
        invariant
            n == line@.len(),
            s@ == line@,
            lo <= n,
            forall|j: int| 0 <= j < lo ==> is_wspace(line@[j]),
        decreases n - lo,
    {
        lo += 1;
    }
    let mut hi: usize = n;
    while hi > lo && char_is_wspace(s.get_char(hi - 1))
        invariant
            n == line@.len(),
            s@ == line@,
            lo <= hi <= n,
            forall|j: int| 0 <= j < lo ==> is_wspace(line@[j]),
            lo < n ==> !is_wspace(line@[lo as int]),
            forall|j: int| hi <= j < n ==> is_wspace(line@[j]),
        decreases hi,
    {
        hi -= 1;
    }
    proof {
        lemma_trim_between(line@, lo as int, hi as int);
        reveal_strlit("ok");
        reveal_strlit("err");
    }
    let is_ok = hi - lo == 2 && s.get_char(lo) == 'o' && s.get_char(lo + 1) == 'k';
    let is_err = hi - lo == 3 && s.get_char(lo) == 'e' && s.get_char(lo + 1) == 'r' && s.get_char(
        lo + 2,
    ) == 'r';
    proof {
        if is_ok {
            assert(line@.subrange(lo as int, hi as int) =~= "ok"@);
        }
        if is_success_line(line@) {
            assert(line@.subrange(lo as int, hi as int) == "ok"@);
            assert(line@[lo as int] == "ok"@[0]);
            assert(line@[lo as int + 1] == "ok"@[1]);
        }
        if is_err {
            assert(line@.subrange(lo as int, hi as int) =~= "err"@);
        }
        if is_failure_line(line@) {
            assert(line@.subrange(lo as int, hi as int) == "err"@);
            assert(line@[lo as int] == "err"@[0]);
            assert(line@[lo as int + 1] == "err"@[1]);
            assert(line@[lo as int + 2] == "err"@[2]);
        }
    }
    if is_ok {
        ProtocolLine::Success
    } else if is_err {
        ProtocolLine::Failure
    } else {
        ProtocolLine::PassThrough(line)
    }
}

} // verus!
