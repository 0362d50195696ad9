use cargo_readme::extractor::{extract, FenceMatcher};
use cargo_readme::fence::{advance, Fence};
use cargo_readme::body::fold_data;

fn lines(expected: &[&str]) -> Vec<String> {
    expected.iter().map(|line| line.to_string()).collect()
}

#[test]
fn extract_indent_headings() {
    let doc_string = r#"
//! first line
//! ```
//! let rust_code = "will show";
//! # let binding = "won't show"
//! ```
//! # heading
//! ```no_run
//! let no_run = true;
//! ```
//! ```ignore
//! let ignore = true;
//! ```should_panic
//! let should_panic = true;
//! ```
//! # heading
//! ```C
//! int i = 0; // no rust code
//! ```
use std::any::Any;

fn main() {}"#;

    let doc_data = extract(doc_string, true).unwrap();

    // The block that `ignore` opens is still open at the line with
    // `should_panic`, which is therefore shown as it stands.
    let expected = vec![
        "first line".to_owned(),
        "```rust".to_owned(),
        "let rust_code = \"will show\";".to_owned(),
        "```".to_owned(),
        "## heading".to_owned(),
        "```rust".to_owned(),
        "let no_run = true;".to_owned(),
        "```".to_owned(),
        "```rust".to_owned(),
        "let ignore = true;".to_owned(),
        "```should_panic".to_owned(),
        "let should_panic = true;".to_owned(),
        "```".to_owned(),
        "## heading".to_owned(),
        "```C".to_owned(),
        "int i = 0; // no rust code".to_owned(),
        "```".to_owned(),
    ];

    assert_eq!(doc_data, expected);
}

#[test]
fn a_bare_fence_opens_rust_code() {
    let source = "//! hello\n//! ```\n//! let x = 1;\n//! ```\n";
    assert_eq!(
        extract(source, false).unwrap(),
        lines(&["hello", "```rust", "let x = 1;", "```"])
    );
}

#[test]
fn without_comment_lines_nothing_is_extracted() {
    let source = "use std::io;\n\n// a comment\n/// an outer doc comment\nfn main() {}\n";
    let extracted = extract(source, true).unwrap();
    assert_eq!(extracted, Vec::<String>::new());
    assert_eq!(fold_data(extracted), "");
    assert_eq!(extract("", false).unwrap(), Vec::<String>::new());
}

#[test]
fn every_annotation_gives_the_same_fences() {
    for annotation in ["", "no_run", "ignore", "should_panic"] {
        let source = format!("//! ```{}\n//! let x = 1;\n//! ```\n", annotation);
        assert_eq!(
            extract(&source, true).unwrap(),
            lines(&["```rust", "let x = 1;", "```"])
        );
    }
}

#[test]
fn hidden_lines_of_rust_code_are_dropped() {
    let source = "//! ```\n//! # use std::io;\n//! #[derive(Debug)]\n//! #\n//! # heading\n//! ```\n";
    assert_eq!(
        extract(source, true).unwrap(),
        lines(&["```rust", "#[derive(Debug)]", "#", "```"])
    );
}

#[test]
fn hidden_mark_hides_nothing_elsewhere() {
    let source = "//! # Title\n//! ```sh\n//! # prompt\n//! ```\n";
    assert_eq!(
        extract(source, false).unwrap(),
        lines(&["# Title", "```sh", "# prompt", "```"])
    );
}

#[test]
fn headings_are_indented_in_prose_only() {
    let source = "//! # One\n//! ## Two\n//! text # no heading\n//! ```text\n//! # in code\n//! ```\n//! #tag\n";
    assert_eq!(
        extract(source, false).unwrap(),
        lines(&["# One", "## Two", "text # no heading", "```text", "# in code", "```", "#tag"])
    );
    assert_eq!(
        extract(source, true).unwrap(),
        lines(&["## One", "### Two", "text # no heading", "```text", "# in code", "```", "##tag"])
    );
}

#[test]
fn blank_comment_lines_stay_as_empty_lines() {
    let source = "//! a\n//!\n//!   \n//!\t\n//! b\n";
    assert_eq!(
        extract(source, true).unwrap(),
        lines(&["a", "", "", "", "b"])
    );
    assert_eq!(fold_data(extract(source, true).unwrap()), "a\n\n\n\nb");
}

#[test]
fn four_characters_are_stripped() {
    let source = "//!x\n//!xy\n//! é\n//!éa\n//!  two\n";
    assert_eq!(
        extract(source, true).unwrap(),
        lines(&["", "y", "é", "a", " two"])
    );
}

#[test]
fn an_open_block_may_stay_open() {
    let source = "//! ```\n//! let x = 1;\n";
    assert_eq!(
        extract(source, true).unwrap(),
        lines(&["```rust", "let x = 1;"])
    );
}

#[test]
fn a_fence_in_a_block_does_not_open_another() {
    let source = "//! ```text\n//! ```no_run\n//! # shown\n//! ```\n//! ```\n//! # hidden\n//! ```\n";
    assert_eq!(
        extract(source, false).unwrap(),
        lines(&["```text", "```no_run", "# shown", "```", "```rust", "```"])
    );
}

#[test]
fn other_language_needs_a_tag_right_after_the_fence() {
    let source = "//! ``` sh\n//! # Title\n//! ```\n//! # gone\n//! ```\n";
    assert_eq!(
        extract(source, true).unwrap(),
        lines(&["``` sh", "## Title", "```rust", "```"])
    );
}

#[test]
fn lines_end_with_line_feed_or_return_and_line_feed() {
    let source = "//! a\r\n//! ```\r\n//! b\r\n//! ```\r\nfn f() {}\r\n//! c";
    assert_eq!(
        extract(source, true).unwrap(),
        lines(&["a", "```rust", "b", "```", "c"])
    );
}

#[test]
fn comment_lines_begin_in_the_first_column() {
    let source = " //! indented\n//!! four\n///! outer\n";
    assert_eq!(extract(source, true).unwrap(), lines(&[" four"]));
}

#[test]
fn one_step_in_prose() {
    assert_eq!(
        advance(Fence::Prose, "//! # heading", false, false, true),
        (Fence::Prose, Some("## heading".to_owned()))
    );
    assert_eq!(
        advance(Fence::Prose, "//! # heading", false, false, false),
        (Fence::Prose, Some("# heading".to_owned()))
    );
    assert_eq!(
        advance(Fence::Prose, "//! ```ignore", true, false, true),
        (Fence::PrimaryCode, Some("```rust".to_owned()))
    );
    assert_eq!(
        advance(Fence::Prose, "//! ```C", false, true, true),
        (Fence::OtherCode, Some("```C".to_owned()))
    );
    assert_eq!(
        advance(Fence::Prose, "//! ```", false, false, true),
        (Fence::Prose, Some("```".to_owned()))
    );
    assert_eq!(
        advance(Fence::Prose, "fn main() {}", true, true, true),
        (Fence::Prose, None)
    );
}

#[test]
fn one_step_in_code() {
    assert_eq!(
        advance(Fence::PrimaryCode, "//! ```", false, false, true),
        (Fence::Prose, Some("```".to_owned()))
    );
    assert_eq!(
        advance(Fence::OtherCode, "//! ```", true, true, true),
        (Fence::Prose, Some("```".to_owned()))
    );
    assert_eq!(
        advance(Fence::PrimaryCode, "//! # hidden", false, false, true),
        (Fence::PrimaryCode, None)
    );
    assert_eq!(
        advance(Fence::OtherCode, "//! # shown", false, false, true),
        (Fence::OtherCode, Some("# shown".to_owned()))
    );
    assert_eq!(
        advance(Fence::PrimaryCode, "//! ```no_run", true, true, true),
        (Fence::PrimaryCode, Some("```no_run".to_owned()))
    );
    assert_eq!(
        advance(Fence::PrimaryCode, "let x = 1;", false, false, true),
        (Fence::PrimaryCode, None)
    );
    assert_eq!(
        advance(Fence::OtherCode, "//!", false, false, true),
        (Fence::OtherCode, Some(String::new()))
    );
}

#[test]
fn matcher_tells_the_fences_apart() {
    let matcher = FenceMatcher::new().unwrap();
    assert!(matcher.primary("//! ```"));
    assert!(matcher.primary("//! ```no_run"));
    assert!(matcher.primary("//! ```ignore"));
    assert!(matcher.primary("//! ```should_panic"));
    assert!(!matcher.primary("//! ```rust"));
    assert!(!matcher.primary("//! ```no_run "));
    assert!(!matcher.primary(" //! ```"));
    assert!(!matcher.primary("//! ```C"));
    assert!(!matcher.primary("//! text"));
    assert!(matcher.other("//! ```C"));
    assert!(matcher.other("//! ```rust,no_run"));
    assert!(matcher.other("//! ```no_run"));
    assert!(!matcher.other("//! ```"));
    assert!(!matcher.other("//! ``` C"));
    assert!(!matcher.other("//! text"));
}

#[test]
fn matcher_extracts_as_the_function_does() {
    let matcher = FenceMatcher::new().unwrap();
    let source = "//! a\n//! ```\n//! # b\n//! c\n//! ```\n";
    assert_eq!(matcher.extract(source, true), extract(source, true).unwrap());
    assert_eq!(matcher.extract(source, true), lines(&["a", "```rust", "c", "```"]));
}

#[test]
fn primary_pattern_takes_four_lines_and_no_other() {
    let matcher = FenceMatcher::new().unwrap();
    let fences = ["//! ```", "//! ```no_run", "//! ```ignore", "//! ```should_panic"];
    for fence in fences {
        assert!(matcher.primary(fence), "{:?}", fence);
        for extra in ["\n", "\r", " ", "x", "`", "\u{85}"] {
            assert!(!matcher.primary(&format!("{}{}", fence, extra)), "{:?}{:?}", fence, extra);
            assert!(!matcher.primary(&format!("{}{}", extra, fence)), "{:?}{:?}", extra, fence);
        }
    }
    for other in [
        "",
        "//!",
        "//! ``",
        "//!```",
        "//! ```no_runignore",
        "//! ```no_run|ignore",
        "//! ```NO_RUN",
        "//! ```(no_run)",
        "//! ```norun",
        "//! ```\n//! ```",
    ] {
        assert!(!matcher.primary(other), "{:?}", other);
    }
}

#[test]
fn other_pattern_takes_the_fence_before_what_is_not_white_space() {
    let matcher = FenceMatcher::new().unwrap();
    for code in 0..=0x10ffff_u32 {
        if let Some(c) = char::from_u32(code) {
            let line = format!("//! ```{}", c);
            assert_eq!(matcher.other(&line), !c.is_whitespace(), "U+{:04X}", code);
        }
    }
    assert!(matcher.other("text //! ```sh"));
    assert!(matcher.other("//! ``` //! ```sh"));
    assert!(matcher.other("//! ```` "));
    assert!(matcher.other("\n//! ```-\n"));
    assert!(!matcher.other("//! `` `sh"));
    assert!(!matcher.other("//!```sh"));
    assert!(!matcher.other("//! ```\tsh"));
    assert!(!matcher.other("//! ```\n"));
    assert!(!matcher.other("text //! ```"));
    assert!(!matcher.other(""));
}
