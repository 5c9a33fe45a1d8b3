//! Character sequences: conversion between strings and character vectors,
//! whitespace trimming, prefixes, lines and path segments.
//!
//! Every specification here speaks of `Seq<char>`, the view of `str` and
//! `String`. The executable functions work on a character vector and a pair
//! of bounds, so that parsing a file never copies more than the pieces it
//! returns.

use vstd::prelude::*;
use vstd::std_specs::iter::IteratorSpec;

verus! {

/// `String::push` of the standard library: the character is appended at the
/// end of the string, and nothing else changes. Trusted, not proved.
pub assume_specification[ String::push ](s: &mut String, c: char)
    ensures
        final(s)@ == old(s)@.push(c),
;

/// The characters of a text that may be absent.
pub open spec fn optional_text(text: Option<String>) -> Option<Seq<char>> {
    match text {
        Some(text) => Some(text@),
        None => None,
    }
}

/// The characters of `s`, in order.
pub fn chars_of(s: &str) -> (v: Vec<char>)
    ensures
        v@ == s@,
{
    let mut v: Vec<char> = Vec::new();
    for c in it: s.chars()
        invariant
            it.seq() == s@,
            v@ == s@.take(it.index() as int),
    {
        v.push(c);
    }
    v
}

/// Appends the characters `v[from..to]` to `out`.
pub fn push_range(out: &mut String, v: &Vec<char>, from: usize, to: usize)
    requires
        from <= to <= v.len(),
    ensures
        final(out)@ == old(out)@ + v@.subrange(from as int, to as int),
{
    let mut i: usize = from;
    while i < to
        invariant
            from <= i <= to <= v.len(),
            out@ == old(out)@ + v@.subrange(from as int, i as int),
        decreases to - i,
    {
        out.push(v[i]);
        i += 1;
        assert(v@.subrange(from as int, i as int) == v@.subrange(from as int, i - 1).push(
            v@[i - 1],
        ));
    }
}

/// The string made of the characters `v[from..to]`.
pub fn string_of_range(v: &Vec<char>, from: usize, to: usize) -> (s: String)
    requires
        from <= to <= v.len(),
    ensures
        s@ == v@.subrange(from as int, to as int),
{
    let mut s = String::new();
    push_range(&mut s, v, from, to);
    s
}

/// Whether `c` is white space: one of the code points that carry the Unicode
/// property `White_Space`.
pub open spec fn is_whitespace(c: char) -> bool {
    let u = c as u32;
    ||| 0x09 <= u <= 0x0D
    ||| u == 0x20
    ||| u == 0x85
    ||| u == 0xA0
    ||| u == 0x1680
    ||| 0x2000 <= u <= 0x200A
    ||| u == 0x2028
    ||| u == 0x2029
    ||| u == 0x202F
    ||| u == 0x205F
    ||| u == 0x3000
}

/// `s` without its leading white space.
pub open spec fn trim_start(s: Seq<char>) -> Seq<char>
    decreases s.len(),
{
    if s.len() > 0 && is_whitespace(s[0]) {
        trim_start(s.drop_first())
    } else {
        s
    }
}

/// `s` without its trailing white space.
pub open spec fn trim_end(s: Seq<char>) -> Seq<char>
    decreases s.len(),
{
    if s.len() > 0 && is_whitespace(s.last()) {
        trim_end(s.drop_last())
    } else {
        s
    }
}

/// `s` without its leading and trailing white space.
pub open spec fn trim(s: Seq<char>) -> Seq<char> {
    trim_end(trim_start(s))
}

/// `s` without the prefix `prefix`, or `None` if `s` does not start with it.
pub open spec fn strip_prefix(s: Seq<char>, prefix: Seq<char>) -> Option<Seq<char>> {
    if prefix.is_prefix_of(s) {
        Some(s.skip(prefix.len() as int))
    } else {
        None
    }
}

/// The index of the first line feed in `text`, or `text.len()` if it holds
/// none.
pub open spec fn line_break(text: Seq<char>) -> int
    decreases text.len(),
{
    if text.len() == 0 || text[0] == '\n' {
        0
    } else {
        1 + line_break(text.drop_first())
    }
}

/// The lines of `text`: the pieces between line feeds, without the line
/// feeds. A line feed at the very end starts no further line, so the empty
/// text has no lines and `"a\n"` has one.
pub open spec fn lines(text: Seq<char>) -> Seq<Seq<char>>
    decreases text.len(),
{
    if text.len() == 0 {
        Seq::empty()
    } else {
        let n = line_break(text);
        if 0 <= n < text.len() {
            seq![text.take(n)] + lines(text.skip(n + 1))
        } else {
            seq![text]
        }
    }
}

/// What follows the last `/` of `s`; all of `s` if it holds no `/`.
pub open spec fn last_segment(s: Seq<char>) -> Seq<char>
    decreases s.len(),
{
    if s.len() == 0 {
        s
    } else if s.last() == '/' {
        Seq::empty()
    } else {
        last_segment(s.drop_last()).push(s.last())
    }
}

/// The index of the first line feed lies within the text.
pub proof fn lemma_line_break_bounds(text: Seq<char>)
    ensures
        0 <= line_break(text) <= text.len(),
        line_break(text) < text.len() ==> text[line_break(text)] == '\n',
        forall|i: int| 0 <= i < line_break(text) ==> text[i] != '\n',
    decreases text.len(),
{
    if text.len() > 0 && text[0] != '\n' {
        let rest = text.drop_first();
        lemma_line_break_bounds(rest);
        assert forall|i: int| 0 <= i < line_break(text) implies text[i] != '\n' by {
            if i > 0 {
                assert(text[i] == rest[i - 1]);
            }
        }
    }
}

/// Reading a text line by line: where a line starts at `pos` and ends before
/// `end`, the lines from `pos` on are that line and then the lines from
/// behind its line feed on.
pub proof fn lemma_lines_step(text: Seq<char>, pos: int, end: int)
    requires
        0 <= pos < text.len(),
        end - pos == line_break(text.skip(pos)),
    ensures
        pos <= end <= text.len(),
        lines(text.skip(pos)) == seq![text.subrange(pos, end)] + lines(
            text.skip(
                if end < text.len() {
                    end + 1
                } else {
                    end
                },
            ),
        ),
{
    let rest = text.skip(pos);
    let n = line_break(rest);
    lemma_line_break_bounds(rest);
    assert(rest.take(n) == text.subrange(pos, end));
    if n < rest.len() {
        assert(rest.skip(n + 1) == text.skip(end + 1));
    } else {
        assert(rest == text.subrange(pos, end));
        assert(text.skip(end).len() == 0);
        assert(lines(text.skip(end)) == Seq::<Seq<char>>::empty());
        assert(seq![rest] + Seq::<Seq<char>>::empty() == seq![rest]);
    }
}

/// A piece without a line feed, followed by a line feed, is the first line,
/// and the lines of what follows are the other lines.
pub proof fn lemma_lines_of_joined(first: Seq<char>, rest: Seq<char>)
    requires
        forall|i: int| 0 <= i < first.len() ==> first[i] != '\n',
    ensures
        line_break(first + seq!['\n'] + rest) == first.len(),
        lines(first + seq!['\n'] + rest) == seq![first] + lines(rest),
    decreases first.len(),
{
    let text = first + seq!['\n'] + rest;
    if first.len() > 0 {
        assert(text[0] == first[0]);
        assert(text.drop_first() == first.drop_first() + seq!['\n'] + rest);
        lemma_lines_of_joined(first.drop_first(), rest);
    } else {
        assert(text[0] == '\n');
    }
    assert(line_break(text) == first.len());
    assert(text.take(first.len() as int) == first);
    assert(text.skip(first.len() as int + 1) == rest);
}

/// Behind a prefix that ends with `/`, a name without `/` is the last
/// segment.
pub proof fn lemma_last_segment_of_joined(prefix: Seq<char>, name: Seq<char>)
    requires
        prefix.len() > 0,
        prefix.last() == '/',
        forall|i: int| 0 <= i < name.len() ==> name[i] != '/',
    ensures
        last_segment(prefix + name) == name,
    decreases name.len(),
{
    let joined = prefix + name;
    if name.len() == 0 {
        assert(joined == prefix);
        assert(last_segment(joined) == name);
    } else {
        assert(joined.last() == name.last());
        assert(joined.drop_last() == prefix + name.drop_last());
        lemma_last_segment_of_joined(prefix, name.drop_last());
        assert(name.drop_last().push(name.last()) == name);
    }
}

/// Whether `c` is white space.
pub fn char_is_whitespace(c: char) -> (r: bool)
    ensures
        r == is_whitespace(c),
{
    let u: u32 = c as u32;
    (0x09 <= u && u <= 0x0D) || u == 0x20 || u == 0x85 || u == 0xA0 || u == 0x1680 || (0x2000 <= u
        && u <= 0x200A) || u == 0x2028 || u == 0x2029 || u == 0x202F || u == 0x205F || u == 0x3000
}

/// The bound `r` at which `v[from..to]` stops being leading white space:
/// `v[r..to]` is `v[from..to]` trimmed at the start.
pub fn trim_start_range(v: &Vec<char>, from: usize, to: usize) -> (r: usize)
    requires
        from <= to <= v.len(),
    ensures
        from <= r <= to,
        v@.subrange(r as int, to as int) == trim_start(v@.subrange(from as int, to as int)),
{
    let mut i: usize = from;
    while i < to && char_is_whitespace(v[i])
        invariant
            from <= i <= to <= v.len(),
            trim_start(v@.subrange(i as int, to as int)) == trim_start(
                v@.subrange(from as int, to as int),
            ),
        decreases to - i,
    {
        assert(v@.subrange(i as int, to as int).drop_first() == v@.subrange(i + 1, to as int));
        i += 1;
    }
    i
}

/// The bound `r` from which `v[from..to]` is trailing white space:
/// `v[from..r]` is `v[from..to]` trimmed at the end.
pub fn trim_end_range(v: &Vec<char>, from: usize, to: usize) -> (r: usize)
    requires
        from <= to <= v.len(),
    ensures
        from <= r <= to,
        v@.subrange(from as int, r as int) == trim_end(v@.subrange(from as int, to as int)),
{
    let mut i: usize = to;
    while i > from && char_is_whitespace(v[i - 1])
        invariant
            from <= i <= to <= v.len(),
            trim_end(v@.subrange(from as int, i as int)) == trim_end(
                v@.subrange(from as int, to as int),
            ),
        decreases i - from,
    {
        assert(v@.subrange(from as int, i as int).drop_last() == v@.subrange(from as int, i - 1));
        i -= 1;
    }
    i
}

/// The bounds of `v[from..to]` trimmed at both ends.
pub fn trim_range(v: &Vec<char>, from: usize, to: usize) -> (r: (usize, usize))
    requires
        from <= to <= v.len(),
    ensures
        from <= r.0 <= r.1 <= to,
        v@.subrange(r.0 as int, r.1 as int) == trim(v@.subrange(from as int, to as int)),
{
    let start = trim_start_range(v, from, to);
    let end = trim_end_range(v, start, to);
    (start, end)
}

/// Whether `v[from..to]` starts with `prefix`.
pub fn range_starts_with(v: &Vec<char>, from: usize, to: usize, prefix: &Vec<char>) -> (r: bool)
    requires
        from <= to <= v.len(),
    ensures
        r == prefix@.is_prefix_of(v@.subrange(from as int, to as int)),
{
    if prefix.len() > to - from {
        return false;
    }
    let ghost s = v@.subrange(from as int, to as int);
    let mut i: usize = 0;
    while i < prefix.len()
        invariant
            from <= to <= v.len(),
            prefix.len() <= to - from,
            i <= prefix.len(),
            s == v@.subrange(from as int, to as int),
            forall|j: int| 0 <= j < i ==> prefix@[j] == s[j],
        decreases prefix.len() - i,
    {
        if prefix[i] != v[from + i] {
            assert(s.subrange(0, prefix@.len() as int)[i as int] != prefix@[i as int]);
            return false;
        }
        i += 1;
    }
    assert(prefix@ =~= s.subrange(0, prefix@.len() as int));
    true
}

/// Whether `v[from..to]` is exactly `other`.
pub fn range_equals(v: &Vec<char>, from: usize, to: usize, other: &Vec<char>) -> (r: bool)
    requires
        from <= to <= v.len(),
    ensures
        r == (v@.subrange(from as int, to as int) == other@),
{
    if other.len() != to - from {
        return false;
    }
    let r = range_starts_with(v, from, to, other);
    proof {
        let s = v@.subrange(from as int, to as int);
        assert(s.subrange(0, s.len() as int) =~= s);
    }
    r
}

/// The end of the line that starts at `from`: the index of the first line
/// feed at or after `from`, or `v.len()`.
pub fn line_end(v: &Vec<char>, from: usize) -> (r: usize)
    requires
        from <= v.len(),
    ensures
        from <= r <= v.len(),
        r - from == line_break(v@.skip(from as int)),
{
    let mut i: usize = from;
    while i < v.len() && v[i] != '\n'
        invariant
            from <= i <= v.len(),
            line_break(v@.skip(from as int)) == (i - from) + line_break(v@.skip(i as int)),
        decreases v.len() - i,
    {
        assert(v@.skip(i as int).drop_first() == v@.skip(i + 1));
        i += 1;
    }
    i
}

/// The bound `r` at which the last segment of `v[from..to]` starts.
pub fn last_segment_start(v: &Vec<char>, from: usize, to: usize) -> (r: usize)
    requires
        from <= to <= v.len(),
    ensures
        from <= r <= to,
        v@.subrange(r as int, to as int) == last_segment(v@.subrange(from as int, to as int)),
{
    let mut i: usize = to;
    while i > from && v[i - 1] != '/'
        invariant
            from <= i <= to <= v.len(),
            last_segment(v@.subrange(from as int, to as int)) == last_segment(
                v@.subrange(from as int, i as int),
            ) + v@.subrange(i as int, to as int),
        decreases i - from,
    {
        proof {
            let whole = v@.subrange(from as int, i as int);
            assert(whole.drop_last() == v@.subrange(from as int, i - 1));
            assert(last_segment(whole) == last_segment(whole.drop_last()).push(v@[i - 1]));
            assert(seq![v@[i - 1]] + v@.subrange(i as int, to as int) == v@.subrange(
                i - 1,
                to as int,
            ));
        }
        i -= 1;
    }
    proof {
        let whole = v@.subrange(from as int, i as int);
        assert(last_segment(whole) == Seq::<char>::empty());
    }
    i
}

} // verus!
