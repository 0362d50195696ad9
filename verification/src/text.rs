//! Text as sequences of characters: conversion between strings and character
//! vectors, and the searches and rewrites that the rest of the crate is built on.

use vstd::prelude::*;

verus! {

/// `String::push`: the string afterwards is the string before with `c` appended.
#[verifier::external_body]
fn push_char(s: &mut String, c: char)
    ensures
        final(s)@ == old(s)@.push(c),
{
    s.push(c)
}

/// The characters of `s`, in order.
pub fn chars_of(s: &str) -> (out: Vec<char>)
    ensures
        out@ == s@,
{
    let mut out: Vec<char> = Vec::new();
    for c in it: s.chars()
        invariant
            out@ == it.seq().take(it.index()),
            it.seq() == s@,
    {
        out.push(c);
    }
    out
}

/// Appends the characters `chars[from..to]` to `out`.
pub(crate) fn append_range(out: &mut String, chars: &Vec<char>, from: usize, to: usize)
    requires
        from <= to <= chars.len(),
    ensures
        final(out)@ == old(out)@ + chars@.subrange(from as int, to as int),
{
    let mut i: usize = from;
    while i < to
        invariant
            from <= i <= to <= chars.len(),
            out@ == old(out)@ + chars@.subrange(from as int, i as int),
        decreases to - i,
    {
        push_char(out, chars[i]);
        i += 1;
    }
}

/// The string that holds the characters `chars[from..to]`.
pub(crate) fn string_of(chars: &Vec<char>, from: usize, to: usize) -> (out: String)
    requires
        from <= to <= chars.len(),
    ensures
        out@ == chars@.subrange(from as int, to as int),
{
    let mut out = String::new();
    append_range(&mut out, chars, from, to);
    out
}

/// The string that holds all of `chars`.
pub fn string_from(chars: &Vec<char>) -> (out: String)
    ensures
        out@ == chars@,
{
    string_of(chars, 0, chars.len())
}

/// White space: the characters with the Unicode property `White_Space`.
pub open spec fn is_space(c: char) -> bool {
    let n = c as u32;
    ||| 0x09 <= n <= 0x0d
    ||| n == 0x20
    ||| n == 0x85
    ||| n == 0xa0
    ||| n == 0x1680
    ||| 0x2000 <= n <= 0x200a
    ||| n == 0x2028
    ||| n == 0x2029
    ||| n == 0x202f
    ||| n == 0x205f
    ||| n == 0x3000
}

/// Whether `c` is white space.
pub fn is_space_char(c: char) -> (b: bool)
    ensures
        b == is_space(c),
{
    let n: u32 = c as u32;
    (0x09 <= n && n <= 0x0d) || n == 0x20 || n == 0x85 || n == 0xa0 || n == 0x1680 || (0x2000 <= n
        && n <= 0x200a) || n == 0x2028 || n == 0x2029 || n == 0x202f || n == 0x205f || n == 0x3000
}

/// `text` holds `part` at position `at`.
pub open spec fn holds_at(text: Seq<char>, part: Seq<char>, at: int) -> bool {
    &&& 0 <= at
    &&& at + part.len() <= text.len()
    &&& text.subrange(at, at + part.len()) == part
}

/// `text` begins with `part`.
pub open spec fn begins_with(text: Seq<char>, part: Seq<char>) -> bool {
    holds_at(text, part, 0)
}

/// `text` holds `part` somewhere.
pub open spec fn occurs(text: Seq<char>, part: Seq<char>) -> bool {
    exists|at: int| holds_at(text, part, at)
}

/// Whether `text` holds `part` at position `at`.
pub fn has_at(text: &Vec<char>, part: &str, at: usize) -> (b: bool)
    ensures
        b == holds_at(text@, part@, at as int),
{
    if at > text.len() {
        return false;
    }
    let mut i: usize = at;
    let mut same = true;
    for c in it: part.chars()
        invariant
            it.seq() == part@,
            at <= i <= text.len(),
            same ==> i == at + it.index() && text@.subrange(at as int, i as int) == part@.take(
                it.index(),
            ),
            !same ==> !holds_at(text@, part@, at as int),
    {
        if same {
            if i < text.len() && text[i] == c {
                i += 1;
            } else {
                same = false;
            }
        }
    }
    proof {
        if same {
            assert(part@.take(part@.len() as int) == part@);
        }
    }
    same
}

/// Whether `text` holds `part` somewhere.
pub fn contains(text: &Vec<char>, part: &str) -> (b: bool)
    ensures
        b == occurs(text@, part@),
{
    let mut at: usize = 0;
    while at <= text.len()
        invariant
            at <= text.len() + 1,
            forall|k: int| 0 <= k < at ==> !holds_at(text@, part@, k),
        decreases text.len() + 1 - at,
    {
        if has_at(text, part, at) {
            return true;
        }
        if at == text.len() {
            return false;
        }
        at += 1;
    }
    false
}

/// `text` with each occurrence of `part` replaced by `with`, the occurrences
/// taken from left to right and none overlapping another. Where `part` is
/// empty the text stays as it is.
pub open spec fn replaced(text: Seq<char>, part: Seq<char>, with: Seq<char>) -> Seq<char>
    decreases text.len(),
{
    if part.len() == 0 || text.len() < part.len() {
        text
    } else if begins_with(text, part) {
        with + replaced(text.skip(part.len() as int), part, with)
    } else {
        seq![text[0]] + replaced(text.skip(1), part, with)
    }
}

/// `text` with each occurrence of `part` replaced by `with`.
pub fn replace(text: &Vec<char>, part: &str, with: &Vec<char>) -> (out: Vec<char>)
    ensures
        out@ == replaced(text@, part@, with@),
{
    let n = part.unicode_len();
    let mut out: Vec<char> = Vec::new();
    let mut i: usize = 0;
    assert(text@.skip(0) == text@);
    while i < text.len()
        invariant
            i <= text.len(),
            n == part@.len(),
            replaced(text@, part@, with@) == out@ + replaced(text@.skip(i as int), part@, with@),
        decreases text.len() - i,
    {
        let ghost rest = text@.skip(i as int);
        if n > 0 && has_at(text, part, i) {
            assert(rest.subrange(0, n as int) == text@.subrange(i as int, i + n));
            assert(rest.skip(n as int) == text@.skip(i + n));
            let mut k: usize = 0;
            let ghost before = out@;
            while k < with.len()
                invariant
                    k <= with.len(),
                    out@ == before + with@.take(k as int),
                decreases with.len() - k,
            {
                out.push(with[k]);
                k += 1;
            }
            i += n;
        } else {
            proof {
                if n > 0 && rest.len() >= n {
                    assert(!begins_with(rest, part@)) by {
                        assert(rest.subrange(0, n as int) == text@.subrange(i as int, i + n));
                    }
                }
                assert(rest.skip(1) == text@.skip(i + 1));
                if n == 0 || rest.len() < n {
                    unchanged_when_short(rest, part@, with@);
                    unchanged_when_short(rest.skip(1), part@, with@);
                }
            }
            out.push(text[i]);
            i += 1;
        }
    }
    out
}

/// A text shorter than `part`, or any text where `part` is empty, is left as it is.
proof fn unchanged_when_short(text: Seq<char>, part: Seq<char>, with: Seq<char>)
    requires
        part.len() == 0 || text.len() < part.len(),
    ensures
        replaced(text, part, with) == text,
{
}

/// `text` without the line feed that ends it, if one does.
pub open spec fn without_line_feed(text: Seq<char>) -> Seq<char> {
    if text.len() > 0 && text.last() == '\n' {
        text.drop_last()
    } else {
        text
    }
}

/// Removes the line feed that ends `text`, if one does.
pub fn trim_line_feed(text: &mut Vec<char>)
    ensures
        final(text)@ == without_line_feed(old(text)@),
{
    let n = text.len();
    if n > 0 && text[n - 1] == '\n' {
        text.pop();
    }
}

/// A line without the carriage return that ends it, if one does.
pub open spec fn without_return(line: Seq<char>) -> Seq<char> {
    if line.len() > 0 && line.last() == '\r' {
        line.drop_last()
    } else {
        line
    }
}

/// The lines of `rest`, where `current` holds what was read of the first of
/// them so far.
pub open spec fn lines_after(rest: Seq<char>, current: Seq<char>) -> Seq<Seq<char>>
    decreases rest.len(),
{
    if rest.len() == 0 {
        if current.len() == 0 {
            Seq::empty()
        } else {
            seq![current]
        }
    } else if rest[0] == '\n' {
        seq![without_return(current)] + lines_after(rest.skip(1), Seq::empty())
    } else {
        lines_after(rest.skip(1), current.push(rest[0]))
    }
}

/// The lines of `text`. A line feed ends a line, and a carriage return just
/// before it belongs to the line's end too; neither is part of the line. What
/// follows the last line feed is a line if it is not empty.
pub open spec fn lines_of(text: Seq<char>) -> Seq<Seq<char>> {
    lines_after(text, Seq::empty())
}

/// What each of `lines` holds.
pub open spec fn views(lines: Seq<Vec<char>>) -> Seq<Seq<char>> {
    Seq::new(lines.len(), |i: int| lines[i]@)
}

/// Splits `text` into its lines.
pub fn split_lines(text: &Vec<char>) -> (lines: Vec<Vec<char>>)
    ensures
        views(lines@) == lines_of(text@),
{
    let mut lines: Vec<Vec<char>> = Vec::new();
    let mut current: Vec<char> = Vec::new();
    let mut i: usize = 0;
    assert(text@.skip(0) == text@);
    while i < text.len()
        invariant
            i <= text.len(),
            lines_of(text@) == views(lines@) + lines_after(text@.skip(i as int), current@),
        decreases text.len() - i,
    {
        let c = text[i];
        assert(text@.skip(i as int).skip(1) == text@.skip(i + 1));
        if c == '\n' {
            if current.len() > 0 && current[current.len() - 1] == '\r' {
                current.pop();
            }
            lines.push(current);
            current = Vec::new();
        } else {
            current.push(c);
        }
        i += 1;
    }
    if current.len() > 0 {
        lines.push(current);
    }
    lines
}

} // verus!
