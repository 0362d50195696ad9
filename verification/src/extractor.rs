//! From the text of a source file to the lines of its README.

use crate::error::ReadmeError;
use crate::fence::{advance_chars, step, Fence};
use crate::pattern::{
    compile, is_match, opens_other, opens_primary, pattern_compiles, regex_finds, OTHER_PATTERN,
    PRIMARY_PATTERN,
};
use crate::text::{chars_of, has_at, lines_of, split_lines, string_from, views};
use regex::Regex;
use vstd::prelude::*;

verus! {

/// Whether the regular expression engine takes both fence patterns.
pub open spec fn patterns_compile() -> bool {
    pattern_compiles(PRIMARY_PATTERN@) && pattern_compiles(OTHER_PATTERN@)
}

/// What the README gets for `lines`, read one after the other from `state` on.
pub open spec fn scan(lines: Seq<Seq<char>>, state: Fence, indent_headings: bool) -> Seq<Seq<char>>
    decreases lines.len(),
{
    if lines.len() == 0 {
        Seq::empty()
    } else {
        let next = step(
            state,
            lines[0],
            opens_primary(lines[0]),
            opens_other(lines[0]),
            indent_headings,
        );
        match next.1 {
            Some(line) => seq![line] + scan(lines.skip(1), next.0, indent_headings),
            None => scan(lines.skip(1), next.0, indent_headings),
        }
    }
}

/// The lines of the README that the source text `source` gives: its lines
/// read in order, the first of them as prose.
pub open spec fn extracted(source: Seq<char>, indent_headings: bool) -> Seq<Seq<char>> {
    scan(lines_of(source), Fence::Prose, indent_headings)
}

/// The two fence patterns, compiled.
#[derive(Debug)]
pub struct FenceMatcher {
    primary: Regex,
    other: Regex,
}

impl FenceMatcher {
    #[verifier::type_invariant]
    spec fn holds_the_patterns(self) -> bool {
        &&& forall|line: Seq<char>| #[trigger]
            regex_finds(self.primary, line) == opens_primary(line)
        &&& forall|line: Seq<char>| #[trigger] regex_finds(self.other, line) == opens_other(line)
    }

    /// Compiles the two patterns. Where the regular expression engine
    /// refuses one of them, that is the error.
    pub fn new() -> (r: Result<FenceMatcher, ReadmeError>)
        ensures
            r is Ok <==> patterns_compile(),
            r matches Err(e) ==> e == ReadmeError::Pattern,
    {
        match compile(PRIMARY_PATTERN) {
            Ok(primary) => match compile(OTHER_PATTERN) {
                Ok(other) => Ok(FenceMatcher { primary, other }),
                Err(_) => Err(ReadmeError::Pattern),
            },
            Err(_) => Err(ReadmeError::Pattern),
        }
    }

    /// Whether `line` opens a block of Rust code.
    pub fn primary(&self, line: &str) -> (b: bool)
        ensures
            b == opens_primary(line@),
    {
        proof {
            use_type_invariant(self);
        }
        is_match(&self.primary, line)
    }

    /// Whether `line` opens a block of code in another language.
    pub fn other(&self, line: &str) -> (b: bool)
        ensures
            b == opens_other(line@),
    {
        proof {
            use_type_invariant(self);
        }
        is_match(&self.other, line)
    }

    /// The lines of the README that `source` gives.
    pub fn extract(&self, source: &str, indent_headings: bool) -> (out: Vec<String>)
        ensures
            out.deep_view() == extracted(source@, indent_headings),
    {
        let text = chars_of(source);
        let lines = split_lines(&text);
        let mut out: Vec<String> = Vec::new();
        let mut state = Fence::Prose;
        let mut i: usize = 0;
        assert(views(lines@).skip(0) == views(lines@));
        while i < lines.len()
            invariant
                i <= lines.len(),
                views(lines@) == lines_of(source@),
                extracted(source@, indent_headings) == out.deep_view() + scan(
                    views(lines@).skip(i as int),
                    state,
                    indent_headings,
                ),
            decreases lines.len() - i,
        {
            let line = &lines[i];
            assert(views(lines@).skip(i as int).skip(1) == views(lines@).skip(i + 1));
            let mut primary = false;
            let mut other = false;
            if state == Fence::Prose && has_at(line, "//!", 0) {
                let whole = string_from(line);
                primary = self.primary(whole.as_str());
                if !primary {
                    other = self.other(whole.as_str());
                }
            }
            let next = advance_chars(state, line, primary, other, indent_headings);
            state = next.0;
            if let Some(shown) = next.1 {
                out.push(shown);
            }
            i += 1;
        }
        out
    }
}

/// The lines of the README that `source` gives, with the patterns compiled
/// for this one reading. It fails where the regular expression engine
/// refuses a pattern, and nowhere else.
pub fn extract(source: &str, indent_headings: bool) -> (r: Result<Vec<String>, ReadmeError>)
    ensures
        match r {
            Ok(out) => patterns_compile() && out.deep_view() == extracted(
                source@,
                indent_headings,
            ),
            Err(e) => !patterns_compile() && e == ReadmeError::Pattern,
        },
{
    match FenceMatcher::new() {
        Ok(matcher) => Ok(matcher.extract(source, indent_headings)),
        Err(e) => Err(e),
    }
}

} // verus!
