//! What holds of the reading and of the merge, whatever the input.

use crate::body::{joined, licensed, titled};
use crate::error::{is_outcome, ReadmeError};
use crate::extractor::{extracted, scan};
use crate::fence::{
    closing_fence, closing_line, comment_mark, hidden_mark, is_heading, primary_fence, step,
    stripped, Fence,
};
use crate::manifest::CrateInfoView;
use crate::pattern::{fence_mark, opens_other, opens_primary};
use crate::readme::{decorated, rendered};
use crate::template::{merged, CRATE_TOKEN, LICENSE_TOKEN, README_TOKEN};
use crate::text::{
    begins_with, holds_at, is_space, lines_of, occurs, replaced, without_line_feed,
};
use vstd::prelude::*;

verus! {

/// Lines of which none is a comment line give nothing, from any state.
proof fn scan_without_comments(lines: Seq<Seq<char>>, state: Fence, indent_headings: bool)
    requires
        forall|i: int| 0 <= i < lines.len() ==> !begins_with(#[trigger] lines[i], comment_mark()),
    ensures
        scan(lines, state, indent_headings) == Seq::<Seq<char>>::empty(),
    decreases lines.len(),
{
    if lines.len() > 0 {
        scan_without_comments(lines.skip(1), state, indent_headings);
    }
}

/// A source text of which no line is a comment line gives a README without
/// lines, and these join to the empty text.
pub proof fn no_comment_no_readme(source: Seq<char>, indent_headings: bool)
    requires
        forall|i: int|
            0 <= i < lines_of(source).len() ==> !begins_with(
                #[trigger] lines_of(source)[i],
                comment_mark(),
            ),
    ensures
        extracted(source, indent_headings) == Seq::<Seq<char>>::empty(),
        joined(extracted(source, indent_headings)) == Seq::<char>::empty(),
{
    scan_without_comments(lines_of(source), Fence::Prose, indent_headings);
}

/// The fence alone and the fence with `no_run`, `ignore` or `should_panic`
/// behind it are comment lines that open a block of Rust code.
pub proof fn annotations_open_rust_code()
    ensures
        opens_primary("//! ```"@),
        opens_primary("//! ```no_run"@),
        opens_primary("//! ```ignore"@),
        opens_primary("//! ```should_panic"@),
        forall|line: Seq<char>| #[trigger] opens_primary(line) ==> begins_with(line, comment_mark()),
{
    reveal_strlit("//!");
    reveal_strlit("//! ```");
    reveal_strlit("//! ```no_run");
    reveal_strlit("//! ```ignore");
    reveal_strlit("//! ```should_panic");
    assert forall|line: Seq<char>| #[trigger] opens_primary(line) implies begins_with(
        line,
        comment_mark(),
    ) by {
        assert(line.subrange(0, 3) == comment_mark());
    }
}

/// The fence with something right behind it that does not begin with white
/// space opens a block of code in another language; the fence alone, and the
/// fence with white space behind it, where it begins the line, do not.
pub proof fn language_tags_open_other_code(tag: Seq<char>)
    ensures
        tag.len() > 0 && !is_space(tag[0]) ==> opens_other(fence_mark() + tag),
        !opens_other(fence_mark()),
        tag.len() > 0 && is_space(tag[0]) && !occurs(tag, fence_mark()) ==> !opens_other(
            fence_mark() + tag,
        ),
{
    reveal_strlit("//! ```");
    let n = fence_mark().len() as int;
    let line = fence_mark() + tag;
    assert(line.subrange(0, n) == fence_mark());
    if tag.len() > 0 && !is_space(tag[0]) {
        assert(holds_at(line, fence_mark(), 0));
    }
    if tag.len() > 0 && is_space(tag[0]) && !occurs(tag, fence_mark()) {
        assert forall|at: int| holds_at(line, fence_mark(), at) && at + n < line.len() implies is_space(
            line[at + n],
        ) by {
            if at >= n {
                assert(tag.subrange(at - n, at) == line.subrange(at, at + n));
                assert(holds_at(tag, fence_mark(), at - n));
            } else if at > 0 {
                // The second character of the fence is `/`, and what stands
                // there, in the fence or as the first of `tag`, is none.
                assert(line.subrange(at, at + n)[1] == line[at + 1]);
            }
        }
    }
}

/// In prose, a line that opens a block of Rust code gives the one opening
/// line `` ```rust ``, whatever annotation it carries, and the block begins.
pub proof fn opening_is_normalized(line: Seq<char>, indent_headings: bool)
    requires
        opens_primary(line),
    ensures
        step(Fence::Prose, line, opens_primary(line), opens_other(line), indent_headings) == (
            Fence::PrimaryCode,
            Some(primary_fence()),
        ),
{
    annotations_open_rust_code();
}

/// In a block of code of either kind, the closing line gives the one closing
/// line `` ``` ``, and prose begins.
pub proof fn closing_is_normalized(state: Fence, primary: bool, other: bool, indent_headings: bool)
    requires
        state != Fence::Prose,
    ensures
        step(state, closing_line(), primary, other, indent_headings) == (
            Fence::Prose,
            Some(closing_fence()),
        ),
{
    reveal_strlit("//! ```");
    reveal_strlit("//!");
    assert(closing_line().subrange(0, 3) == comment_mark());
}

/// In a block of Rust code, a comment line that does not close the block is
/// dropped where it begins with the hidden mark, and else shown as it
/// stands, without its first four characters: no heading is indented
/// there. The block goes on.
pub proof fn hidden_lines_are_dropped(
    line: Seq<char>,
    primary: bool,
    other: bool,
    indent_headings: bool,
)
    requires
        begins_with(line, comment_mark()),
        line != closing_line(),
    ensures
        step(Fence::PrimaryCode, line, primary, other, indent_headings) == (
            Fence::PrimaryCode,
            if begins_with(line, hidden_mark()) {
                None
            } else {
                Some(stripped(line))
            },
        ),
{
}

/// Where the line after `lines` stands, where the first of them is read at
/// `state`.
pub open spec fn state_after(lines: Seq<Seq<char>>, state: Fence) -> Fence
    decreases lines.len(),
{
    if lines.len() == 0 {
        state
    } else {
        state_after(
            lines.skip(1),
            step(state, lines[0], opens_primary(lines[0]), opens_other(lines[0]), false).0,
        )
    }
}

/// The reading goes line by line: what it gives for lines and more lines
/// after them is what it gives for the first, and then what it gives for the
/// others from where the first have led.
pub proof fn scan_continues(
    lines: Seq<Seq<char>>,
    more: Seq<Seq<char>>,
    state: Fence,
    indent_headings: bool,
)
    ensures
        scan(lines + more, state, indent_headings) == scan(lines, state, indent_headings) + scan(
            more,
            state_after(lines, state),
            indent_headings,
        ),
    decreases lines.len(),
{
    if lines.len() > 0 {
        assert((lines + more).skip(1) == lines.skip(1) + more);
        let primary = opens_primary(lines[0]);
        let other = opens_other(lines[0]);
        heading_indent_adds_one_mark(state, lines[0], primary, other);
        let next = step(state, lines[0], primary, other, indent_headings).0;
        scan_continues(lines.skip(1), more, next, indent_headings);
    }
}

/// What a block of Rust code shows of the lines `inner` between its fences:
/// its comment lines but the hidden ones, each without its first four
/// characters.
pub open spec fn code_shown(inner: Seq<Seq<char>>) -> Seq<Seq<char>>
    decreases inner.len(),
{
    if inner.len() == 0 {
        Seq::empty()
    } else if begins_with(inner[0], comment_mark()) && !begins_with(inner[0], hidden_mark()) {
        seq![stripped(inner[0])] + code_shown(inner.skip(1))
    } else {
        code_shown(inner.skip(1))
    }
}

/// Read in a block of Rust code, lines of which none closes the block give
/// what the block shows of them, and the block goes on after them.
proof fn scan_in_primary_code(inner: Seq<Seq<char>>, tail: Seq<Seq<char>>, indent_headings: bool)
    requires
        forall|i: int| 0 <= i < inner.len() ==> #[trigger] inner[i] != closing_line(),
    ensures
        scan(inner + tail, Fence::PrimaryCode, indent_headings) == code_shown(inner) + scan(
            tail,
            Fence::PrimaryCode,
            indent_headings,
        ),
    decreases inner.len(),
{
    if inner.len() > 0 {
        assert((inner + tail).skip(1) == inner.skip(1) + tail);
        scan_in_primary_code(inner.skip(1), tail, indent_headings);
    }
}

/// A block of Rust code, from a line that opens it in prose to the line that
/// closes it, gives the opening line `` ```rust ``, what the block shows of
/// the lines between, and the closing line `` ``` ``; after it the reading
/// goes on in prose. The annotation of the opening line leaves no trace. This
/// holds wherever the block stands: `before` are lines that end in prose.
pub proof fn primary_block_round_trip(
    before: Seq<Seq<char>>,
    opening: Seq<char>,
    inner: Seq<Seq<char>>,
    rest: Seq<Seq<char>>,
    indent_headings: bool,
)
    requires
        state_after(before, Fence::Prose) == Fence::Prose,
        opens_primary(opening),
        forall|i: int| 0 <= i < inner.len() ==> #[trigger] inner[i] != closing_line(),
    ensures
        scan(
            before + seq![opening] + inner + seq![closing_line()] + rest,
            Fence::Prose,
            indent_headings,
        ) == scan(before, Fence::Prose, indent_headings) + seq![primary_fence()] + code_shown(inner)
            + seq![closing_fence()] + scan(rest, Fence::Prose, indent_headings),
{
    let tail = seq![closing_line()] + rest;
    let block = seq![opening] + inner + tail;
    assert(before + block == before + seq![opening] + inner + seq![closing_line()] + rest);
    scan_continues(before, block, Fence::Prose, indent_headings);
    opening_is_normalized(opening, indent_headings);
    assert(block.skip(1) == inner + tail);
    scan_in_primary_code(inner, tail, indent_headings);
    assert(tail.skip(1) == rest);
    closing_is_normalized(
        Fence::PrimaryCode,
        opens_primary(closing_line()),
        opens_other(closing_line()),
        indent_headings,
    );
}

/// Blocks of code do not nest. In a block, the closing line alone leads back
/// to prose, and nothing leads to a block of the other kind; in prose, a
/// comment line that matches a pattern for an opening alone leads to a block.
pub proof fn fences_do_not_nest(
    state: Fence,
    line: Seq<char>,
    primary: bool,
    other: bool,
    indent_headings: bool,
)
    ensures
        step(state, line, primary, other, indent_headings).0 == if !begins_with(
            line,
            comment_mark(),
        ) {
            state
        } else if state == Fence::Prose {
            if primary {
                Fence::PrimaryCode
            } else if other {
                Fence::OtherCode
            } else {
                Fence::Prose
            }
        } else if line == closing_line() {
            Fence::Prose
        } else {
            state
        },
{
}

/// A comment line that the README shows as a heading of the prose: it stands
/// in prose, opens no block of code, and what is left of it begins with `#`.
pub open spec fn is_prose_heading(
    state: Fence,
    line: Seq<char>,
    primary: bool,
    other: bool,
) -> bool {
    &&& begins_with(line, comment_mark())
    &&& state == Fence::Prose
    &&& !primary
    &&& !other
    &&& is_heading(line)
}

/// To indent the headings changes no state and drops or adds no line. A
/// heading of the prose gets exactly one `#` more than it has without; every
/// other line, and so every line of a block of code, is the same either way.
pub proof fn heading_indent_adds_one_mark(state: Fence, line: Seq<char>, primary: bool, other: bool)
    ensures
        step(state, line, primary, other, true).0 == step(state, line, primary, other, false).0,
        match (
            step(state, line, primary, other, true).1,
            step(state, line, primary, other, false).1,
        ) {
            (Some(with), Some(without)) => if is_prose_heading(state, line, primary, other) {
                with == seq!['#'] + without && without.len() > 0 && without[0] == '#'
            } else {
                with == without
            },
            (None, None) => true,
            _ => false,
        },
{
}

/// One is the other, or the other with one `#` more in front of its own.
pub open spec fn same_or_indented(with: Seq<char>, without: Seq<char>) -> bool {
    with == without || (with == seq!['#'] + without && without.len() > 0 && without[0] == '#')
}

/// Read from any state, the same lines give as many lines with headings
/// indented as without, and each line is the same in both or has one `#`
/// more in front of its own.
pub proof fn indent_changes_headings_only(lines: Seq<Seq<char>>, state: Fence)
    ensures
        scan(lines, state, true).len() == scan(lines, state, false).len(),
        forall|i: int|
            0 <= i < scan(lines, state, true).len() ==> same_or_indented(
                #[trigger] scan(lines, state, true)[i],
                scan(lines, state, false)[i],
            ),
    decreases lines.len(),
{
    if lines.len() > 0 {
        let primary = opens_primary(lines[0]);
        let other = opens_other(lines[0]);
        heading_indent_adds_one_mark(state, lines[0], primary, other);
        let next = step(state, lines[0], primary, other, true).0;
        indent_changes_headings_only(lines.skip(1), next);
    }
}

/// Two calls of `process_template` with the same arguments end alike: with
/// the same text, or with the same error.
pub proof fn merge_is_determined(
    template: Seq<char>,
    body: Seq<char>,
    info: CrateInfoView,
    add_title: bool,
    add_license: bool,
    first: Result<String, ReadmeError>,
    second: Result<String, ReadmeError>,
)
    requires
        is_outcome(first, merged(template, body, info, add_title, add_license)),
        is_outcome(second, merged(template, body, info, add_title, add_license)),
    ensures
        match (first, second) {
            (Ok(a), Ok(b)) => a@ == b@,
            (Err(a), Err(b)) => a == b,
            _ => false,
        },
{
}

/// A license line that is asked for of a crate without a license is refused
/// before the template is looked at: with any template, and with none.
pub proof fn no_license_fails_first(
    body: Seq<char>,
    template: Option<Seq<char>>,
    info: CrateInfoView,
    add_title: bool,
)
    requires
        info.license is None,
    ensures
        rendered(body, template, info, add_title, true) == Err::<Seq<char>, ReadmeError>(
            ReadmeError::NoLicense,
        ),
{
}

/// Where the template names neither the crate nor the license, and both a
/// title and a license line are asked for, both go around the body, and the
/// template is changed at the places for the body alone.
pub proof fn decorations_go_to_the_body(
    template: Seq<char>,
    body: Seq<char>,
    info: CrateInfoView,
    license: Seq<char>,
)
    requires
        info.license == Some(license),
        !occurs(without_line_feed(template), CRATE_TOKEN@),
        !occurs(without_line_feed(template), LICENSE_TOKEN@),
        occurs(without_line_feed(template), README_TOKEN@),
    ensures
        merged(template, body, info, true, true) == Ok::<Seq<char>, ReadmeError>(
            replaced(
                without_line_feed(template),
                README_TOKEN@,
                licensed(titled(body, info.name), license),
            ),
        ),
{
}

/// To replace a part that occurs nowhere changes nothing.
pub proof fn replacing_nothing_changes_nothing(text: Seq<char>, part: Seq<char>, with: Seq<char>)
    requires
        !occurs(text, part),
    ensures
        replaced(text, part, with) == text,
    decreases text.len(),
{
    if part.len() > 0 && text.len() >= part.len() {
        let rest = text.skip(1);
        assert forall|at: int| !holds_at(rest, part, at) by {
            if holds_at(rest, part, at) {
                assert(text.subrange(at + 1, at + 1 + part.len()) == rest.subrange(
                    at,
                    at + part.len(),
                ));
                assert(holds_at(text, part, at + 1));
            }
        }
        replacing_nothing_changes_nothing(rest, part, with);
    }
}

/// The template that is the place for the body and no more is as good as no
/// template: the body comes out decorated as it was asked for, or the crate
/// has no license for the line that was asked for.
pub proof fn bare_template_is_no_template(
    body: Seq<char>,
    info: CrateInfoView,
    add_title: bool,
    add_license: bool,
)
    ensures
        merged(README_TOKEN@, body, info, add_title, add_license) == decorated(
            body,
            info,
            add_title,
            add_license,
        ),
        rendered(body, Some(README_TOKEN@), info, add_title, add_license) == rendered(
            body,
            None,
            info,
            add_title,
            add_license,
        ),
{
    reveal_strlit("{{readme}}");
    reveal_strlit("{{crate}}");
    reveal_strlit("{{license}}");
    let token = README_TOKEN@;
    assert forall|at: int| !holds_at(token, CRATE_TOKEN@, at) by {
        if holds_at(token, CRATE_TOKEN@, at) {
            assert(token.subrange(at, at + 9)[2] == 'c');
        }
    }
    assert(holds_at(token, token, 0)) by {
        assert(token.subrange(0, 10) == token);
    }
    replacing_nothing_changes_nothing(token, CRATE_TOKEN@, info.name);
    assert forall|text: Seq<char>| replaced(token, token, text) == text by {
        assert(replaced(token.skip(10), token, text) == Seq::<char>::empty());
    }
}

} // verus!
