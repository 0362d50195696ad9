//! The two fence patterns, and the regular expressions that the `regex` crate
//! compiles from them.

use crate::text::{holds_at, is_space};
use regex::Regex;
use vstd::prelude::*;

verus! {

/// The regular expression for a line that opens a block of Rust code: the
/// fence alone, or with one of the annotations `no_run`, `ignore` and
/// `should_panic`, and nothing after it.
pub const PRIMARY_PATTERN: &'static str = "^//! ```(no_run|ignore|should_panic)?$";

/// The regular expression for a line that opens a block of code in another
/// language: the fence, and right after it, with no white space between, the
/// name of the language.
pub const OTHER_PATTERN: &'static str = "//! ```\\S+";

/// The fence behind the mark of a comment line.
pub open spec fn fence_mark() -> Seq<char> {
    "//! ```"@
}

/// A line that opens a block of Rust code: the fence alone, or the fence and
/// one of the three annotations.
pub open spec fn opens_primary(line: Seq<char>) -> bool {
    ||| line == "//! ```"@
    ||| line == "//! ```no_run"@
    ||| line == "//! ```ignore"@
    ||| line == "//! ```should_panic"@
}

/// A line that opens a block of code in another language: somewhere in it
/// stands the fence with a character right after it that is not white space.
pub open spec fn opens_other(line: Seq<char>) -> bool {
    exists|at: int|
        #![trigger holds_at(line, fence_mark(), at)]
        holds_at(line, fence_mark(), at) && at + fence_mark().len() < line.len() && !is_space(
            line[at + fence_mark().len()],
        )
}

/// `regex::Regex`, a compiled regular expression. Nothing of its inside is
/// known here but what the functions below say.
#[verifier::external_type_specification]
#[verifier::external_body]
pub struct ExRegex(regex::Regex);

/// `regex::Error`, with which the compiling of a pattern fails.
#[verifier::external_type_specification]
#[verifier::external_body]
pub struct ExRegexError(regex::Error);

/// Whether `Regex::new` takes `pattern`: whether it is a regular expression
/// in the syntax of `regex`, and one no larger than `Regex::new` allows.
pub uninterp spec fn pattern_compiles(pattern: Seq<char>) -> bool;

/// Whether `Regex::is_match` finds a match of `re` somewhere in `text`.
pub uninterp spec fn regex_finds(re: Regex, text: Seq<char>) -> bool;

/// `Regex::new`. Whether it takes a pattern depends on the pattern alone.
///
/// Of the two fence patterns the contract says which texts the compiled
/// expression matches, as the syntax that `regex` documents gives it. `^`
/// and `$` stand for the two ends of the text, and `(a|b|c)?` for one of
/// three words or for nothing: the first pattern matches the four lines of
/// `opens_primary` and no other text. The second pattern has no anchor, so
/// it matches wherever the fence stands in the text with a character after
/// it that `\S` takes, and `\S` takes the characters that lack the Unicode
/// property `White_Space`.
#[verifier::external_body]
pub(crate) fn compile(pattern: &str) -> (r: Result<Regex, regex::Error>)
    ensures
        r is Ok <==> pattern_compiles(pattern@),
        r matches Ok(re) ==> (pattern@ == PRIMARY_PATTERN@ ==> forall|text: Seq<char>| #[trigger]
            regex_finds(re, text) == opens_primary(text)),
        r matches Ok(re) ==> (pattern@ == OTHER_PATTERN@ ==> forall|text: Seq<char>| #[trigger]
            regex_finds(re, text) == opens_other(text)),
{
    Regex::new(pattern)
}

/// `Regex::is_match`: whether `re` matches anywhere in `text`.
#[verifier::external_body]
pub(crate) fn is_match(re: &Regex, text: &str) -> (b: bool)
    ensures
        b == regex_finds(*re, text@),
{
    re.is_match(text)
}

} // verus!
