//! The lines of a documentation comment, read one by one: which of them open
//! or close a code block, which are hidden, and what each one shows.

use crate::text::{append_range, begins_with, chars_of, has_at, is_space, is_space_char};
use vstd::prelude::*;

verus! {

/// Where a line stands: in prose, in a block of Rust code, or in a block of
/// code in another language.
#[derive(Clone, Copy, Debug, PartialEq, Eq, Structural)]
pub enum Fence {
    Prose,
    PrimaryCode,
    OtherCode,
}

/// What a line of a documentation comment begins with.
pub open spec fn comment_mark() -> Seq<char> {
    "//!"@
}

/// What a line begins with that a block of Rust code holds and does not show.
pub open spec fn hidden_mark() -> Seq<char> {
    "//! # "@
}

/// The line that closes a block of code.
pub open spec fn closing_line() -> Seq<char> {
    "//! ```"@
}

/// The line that opens a block of Rust code in the README.
pub open spec fn primary_fence() -> Seq<char> {
    "```rust"@
}

/// The line that closes a block of code in the README.
pub open spec fn closing_fence() -> Seq<char> {
    "```"@
}

/// A comment line that holds nothing but white space after its mark, which
/// is three characters long.
pub open spec fn is_blank(line: Seq<char>) -> bool {
    forall|i: int| 3 <= i < line.len() ==> is_space(#[trigger] line[i])
}

/// A comment line without its first four characters; nothing of a blank line.
pub open spec fn stripped(line: Seq<char>) -> Seq<char> {
    if is_blank(line) {
        Seq::empty()
    } else {
        line.skip(4)
    }
}

/// A comment line that holds a heading: what is left of it begins with `#`.
pub open spec fn is_heading(line: Seq<char>) -> bool {
    stripped(line).len() > 0 && stripped(line)[0] == '#'
}

/// What the README shows of a comment line that is no fence and not hidden,
/// where `state` is where the line stands: the line without its first four
/// characters, and in prose, where headings are to be indented, a heading
/// with one `#` more.
pub open spec fn shown(line: Seq<char>, state: Fence, indent_headings: bool) -> Seq<char> {
    if indent_headings && state == Fence::Prose && is_heading(line) {
        seq!['#'] + stripped(line)
    } else {
        stripped(line)
    }
}

/// One step of the reading: where the next line stands after `line`, read
/// at `state`, and the line that the README gets for it, if any. `primary`
/// and `other` say whether the line matches the pattern for the opening of a
/// block of Rust code, and of a block in another language.
pub open spec fn step(
    state: Fence,
    line: Seq<char>,
    primary: bool,
    other: bool,
    indent_headings: bool,
) -> (Fence, Option<Seq<char>>) {
    if !begins_with(line, comment_mark()) {
        (state, None)
    } else if state == Fence::Prose {
        if primary {
            (Fence::PrimaryCode, Some(primary_fence()))
        } else if other {
            (Fence::OtherCode, Some(shown(line, Fence::OtherCode, indent_headings)))
        } else {
            (Fence::Prose, Some(shown(line, Fence::Prose, indent_headings)))
        }
    } else if line == closing_line() {
        (Fence::Prose, Some(closing_fence()))
    } else if state == Fence::PrimaryCode && begins_with(line, hidden_mark()) {
        (state, None)
    } else {
        (state, Some(shown(line, state, indent_headings)))
    }
}

/// Whether a comment line holds nothing but white space after its mark.
fn blank(line: &Vec<char>) -> (b: bool)
    ensures
        b == is_blank(line@),
{
    let mut i: usize = 3;
    while i < line.len()
        invariant
            3 <= i,
            forall|k: int| 3 <= k < i && k < line.len() ==> is_space(#[trigger] line@[k]),
        decreases line.len() - i,
    {
        if !is_space_char(line[i]) {
            return false;
        }
        i += 1;
    }
    true
}

/// What the README shows of a comment line that is no fence and not hidden.
fn show(line: &Vec<char>, state: Fence, indent_headings: bool) -> (out: String)
    ensures
        out@ == shown(line@, state, indent_headings),
{
    if blank(line) {
        return String::new();
    }
    let mut out = String::new();
    if indent_headings && state == Fence::Prose && line.len() > 4 && line[4] == '#' {
        out = "#".to_owned();
        proof {
            reveal_strlit("#");
        }
    }
    append_range(&mut out, line, 4, line.len());
    out
}

/// Whether `line` is the line that closes a block of code.
fn closes(line: &Vec<char>) -> (b: bool)
    ensures
        b == (line@ == closing_line()),
{
    proof {
        reveal_strlit("//! ```");
    }
    if line.len() == 7 {
        assert(line@.subrange(0, 7) == line@);
        has_at(line, "//! ```", 0)
    } else {
        false
    }
}

/// One step of the reading, on the characters of a line.
pub(crate) fn advance_chars(
    state: Fence,
    line: &Vec<char>,
    primary: bool,
    other: bool,
    indent_headings: bool,
) -> (next: (Fence, Option<String>))
    ensures
        (next.0, next.1.deep_view()) == step(state, line@, primary, other, indent_headings),
{
    if !has_at(line, "//!", 0) {
        (state, None)
    } else if state == Fence::Prose {
        if primary {
            (Fence::PrimaryCode, Some("```rust".to_owned()))
        } else if other {
            (Fence::OtherCode, Some(show(line, Fence::OtherCode, indent_headings)))
        } else {
            (Fence::Prose, Some(show(line, Fence::Prose, indent_headings)))
        }
    } else if closes(line) {
        (Fence::Prose, Some("```".to_owned()))
    } else if state == Fence::PrimaryCode && has_at(line, "//! # ", 0) {
        (state, None)
    } else {
        (state, Some(show(line, state, indent_headings)))
    }
}

/// One step of the reading: where the next line stands after `line`, read at
/// `state`, and the line that the README gets for it, if any.
pub fn advance(
    state: Fence,
    line: &str,
    primary: bool,
    other: bool,
    indent_headings: bool,
) -> (next: (Fence, Option<String>))
    ensures
        (next.0, next.1.deep_view()) == step(state, line@, primary, other, indent_headings),
{
    let chars = chars_of(line);
    advance_chars(state, &chars, primary, other, indent_headings)
}

} // verus!
