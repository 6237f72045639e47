//! Character sequences: the characters of a string, substring search, lines.
//!
//! Everything here works on `Vec<char>`, whose view is the `Seq<char>` that the
//! contracts of the whole crate speak of.

use vstd::prelude::*;
use vstd::std_specs::iter::IteratorSpec;

verus! {

/// `needle` stands in `hay` at position `at`.
pub open spec fn occurs_at(hay: Seq<char>, needle: Seq<char>, at: int) -> bool {
    &&& 0 <= at
    &&& at + needle.len() <= hay.len()
    &&& hay.subrange(at, at + needle.len()) == needle
}

/// `needle` is a contiguous part of `hay`. The empty sequence is part of every
/// sequence.
pub open spec fn contains(hay: Seq<char>, needle: Seq<char>) -> bool {
    exists|at: int| occurs_at(hay, needle, at)
}

/// A line without the carriage return that may end it.
pub open spec fn without_carriage_return(line: Seq<char>) -> Seq<char> {
    if line.len() > 0 && line.last() == '\r' {
        line.drop_last()
    } else {
        line
    }
}

/// The lines of `text` that are still to come when a scan stands at `at` and the
/// line in progress began at `start`.
///
/// A line feed ends the line in progress; the line is then taken without the
/// line feed and without a carriage return just before it. What follows the
/// last line feed is a line too, taken as it is, unless it is empty.
pub open spec fn lines_scan(text: Seq<char>, start: int, at: int) -> Seq<Seq<char>>
    decreases text.len() - at,
{
    if at >= text.len() {
        if start < text.len() {
            seq![text.subrange(start, text.len() as int)]
        } else {
            Seq::empty()
        }
    } else if text[at] == '\n' {
        seq![without_carriage_return(text.subrange(start, at))] + lines_scan(text, at + 1, at + 1)
    } else {
        lines_scan(text, start, at + 1)
    }
}

/// The lines of `text`, in order: the pieces between line feeds, each without
/// its line ending (`\n` or `\r\n`). A final line ending adds no empty line, and
/// the empty text has no line.
pub open spec fn lines(text: Seq<char>) -> Seq<Seq<char>> {
    lines_scan(text, 0, 0)
}

/// What a vector of character vectors holds, as a sequence of sequences.
pub open spec fn texts(items: Seq<Vec<char>>) -> Seq<Seq<char>> {
    Seq::new(items.len(), |i: int| items[i]@)
}

/// The characters of `s`, in order.
pub fn chars_of(s: &str) -> (chars: Vec<char>)
    ensures
        chars@ == s@,
{
    let mut chars: Vec<char> = Vec::new();
    let mut rest = s.chars();
    loop
        invariant
            chars@ + rest.remaining() == s@,
            rest.decrease() is Some,
        ensures
            chars@ == s@,
        decreases rest.decrease()->0,
    {
        match rest.next() {
            Some(c) => {
                chars.push(c);
            },
            None => {
                break ;
            },
        }
    }
    chars
}

/// The characters of `text` from `from` up to, not including, `to`.
pub fn slice_of(text: &Vec<char>, from: usize, to: usize) -> (part: Vec<char>)
    requires
        from <= to <= text.len(),
    ensures
        part@ == text@.subrange(from as int, to as int),
{
    let mut part: Vec<char> = Vec::new();
    let mut at: usize = from;
    while at < to
        invariant
            from <= at <= to <= text.len(),
            part@ == text@.subrange(from as int, at as int),
        decreases to - at,
    {
        part.push(text[at]);
        at += 1;
    }
    part
}

/// Whether two character vectors hold the same characters.
pub fn same_chars(a: &Vec<char>, b: &Vec<char>) -> (same: bool)
    ensures
        same == (a@ == b@),
{
    if a.len() != b.len() {
        return false;
    }
    let mut at: usize = 0;
    while at < a.len()
        invariant
            at <= a.len(),
            a.len() == b.len(),
            forall|j: int| 0 <= j < at ==> a@[j] == b@[j],
        decreases a.len() - at,
    {
        if a[at] != b[at] {
            return false;
        }
        at += 1;
    }
    assert(a@ =~= b@);
    true
}

/// Whether `needle` stands in `hay` at position `at`.
fn matches_at(hay: &Vec<char>, needle: &Vec<char>, at: usize) -> (found: bool)
    requires
        at + needle.len() <= hay.len(),
    ensures
        found == occurs_at(hay@, needle@, at as int),
{
    let ghost window = hay@.subrange(at as int, at + needle.len());
    let mut k: usize = 0;
    while k < needle.len()
        invariant
            k <= needle.len(),
            at + needle.len() <= hay.len(),
            window == hay@.subrange(at as int, at + needle.len()),
            forall|j: int| 0 <= j < k ==> window[j] == needle@[j],
        decreases needle.len() - k,
    {
        if hay[at + k] != needle[k] {
            assert(window[k as int] != needle@[k as int]);
            return false;
        }
        k += 1;
    }
    assert(window =~= needle@);
    true
}

/// Substring search: whether `needle` is a contiguous part of `hay`.
pub fn has_substring(hay: &Vec<char>, needle: &Vec<char>) -> (found: bool)
    ensures
        found == contains(hay@, needle@),
{
    if needle.len() > hay.len() {
        return false;
    }
    if needle.len() == 0 {
        assert(hay@.subrange(0, 0) =~= needle@);
        assert(occurs_at(hay@, needle@, 0));
        return true;
    }
    let mut at: usize = 0;
    while hay.len() - at >= needle.len()
        invariant
            at <= hay.len(),
            0 < needle.len() <= hay.len(),
            forall|j: int| 0 <= j < at ==> !occurs_at(hay@, needle@, j),
        decreases hay.len() - at,
    {
        if matches_at(hay, needle, at) {
            return true;
        }
        at += 1;
    }
    false
}

/// Splits `text` into its lines.
pub fn split_lines(text: &Vec<char>) -> (found: Vec<Vec<char>>)
    ensures
        texts(found@) == lines(text@),
{
    let mut found: Vec<Vec<char>> = Vec::new();
    let mut start: usize = 0;
    let mut at: usize = 0;
    while at < text.len()
        invariant
            start <= at <= text.len(),
            texts(found@) + lines_scan(text@, start as int, at as int) == lines(text@),
        decreases text.len() - at,
    {
        if text[at] == '\n' {
            let end = if at > start && text[at - 1] == '\r' {
                at - 1
            } else {
                at
            };
            let line = slice_of(text, start, end);
            let ghost before = texts(found@);
            proof {
                let whole = text@.subrange(start as int, at as int);
                assert(line@ =~= without_carriage_return(whole));
                assert(before.push(line@) + lines_scan(text@, at + 1, at + 1) =~= before
                    + lines_scan(text@, start as int, at as int));
            }
            found.push(line);
            assert(texts(found@) =~= before.push(line@));
            start = at + 1;
        }
        at += 1;
    }
    if start < text.len() {
        let line = slice_of(text, start, text.len());
        let ghost before = texts(found@);
        found.push(line);
        assert(texts(found@) =~= before.push(line@));
    }
    found
}

} // verus!
