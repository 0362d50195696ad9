use cargo_readme::body::fold_data;
use cargo_readme::error::ReadmeError;
use cargo_readme::extractor::{extract, FenceMatcher};
use cargo_readme::manifest::{get_crate_info, CrateInfo};
use cargo_readme::readme::{generate, generate_readme};
use cargo_readme::template::process_template;

const SOURCE: &str = "//! hello\n//! ```\n//! let x = 1;\n//! ```\n";
const WITH_LICENSE: &str = "[package]\nname = \"foo\"\nversion = \"0.1.0\"\nlicense = \"MIT\"\n";
const WITHOUT_LICENSE: &str = "[package]\nname = \"foo\"\nversion = \"0.1.0\"\n";

#[test]
fn manifest_gives_name_and_license() {
    let info = get_crate_info(WITH_LICENSE).unwrap();
    assert_eq!(info.name(), "foo");
    assert_eq!(info.license(), Some("MIT"));
}

#[test]
fn manifest_may_lack_a_license() {
    let info = get_crate_info(WITHOUT_LICENSE).unwrap();
    assert_eq!(info.name(), "foo");
    assert_eq!(info.license(), None);
}

#[test]
fn manifest_is_read_as_toml() {
    let manifest = "# a manifest\n[dependencies]\nregex = \"1\"\n\n[package]\nlicense = 'MIT OR Apache-2.0'\nauthors = [\"a\", \"b\"]\nname = \"cargo\\u002Dreadme\"\n";
    let info = get_crate_info(manifest).unwrap();
    assert_eq!(info.name(), "cargo-readme");
    assert_eq!(info.license(), Some("MIT OR Apache-2.0"));
}

#[test]
fn manifest_must_be_a_document() {
    assert!(matches!(get_crate_info("[package\nname = \"foo\""), Err(ReadmeError::Metadata)));
    assert!(matches!(get_crate_info("name = foo"), Err(ReadmeError::Metadata)));
}

#[test]
fn manifest_must_name_the_crate() {
    assert!(matches!(get_crate_info(""), Err(ReadmeError::Metadata)));
    assert!(matches!(get_crate_info("name = \"foo\"\n"), Err(ReadmeError::Metadata)));
    assert!(matches!(get_crate_info("package = \"foo\"\n"), Err(ReadmeError::Metadata)));
    assert!(matches!(
        get_crate_info("[package]\nlicense = \"MIT\"\n"),
        Err(ReadmeError::Metadata)
    ));
    assert!(matches!(get_crate_info("[package]\nname = 1\n"), Err(ReadmeError::Metadata)));
    assert!(matches!(get_crate_info("[package]\nname = \"\"\n"), Err(ReadmeError::Metadata)));
}

#[test]
fn manifest_license_must_be_a_string() {
    assert!(matches!(
        get_crate_info("[package]\nname = \"foo\"\nlicense = true\n"),
        Err(ReadmeError::Metadata)
    ));
    assert!(matches!(
        get_crate_info("[package]\nname = \"foo\"\n[package.license]\nworkspace = true\n"),
        Err(ReadmeError::Metadata)
    ));
}

#[test]
fn readme_without_template() {
    assert_eq!(
        generate_readme(SOURCE, None, WITH_LICENSE, false, false, false),
        Ok("hello\n```rust\nlet x = 1;\n```".to_owned())
    );
    assert_eq!(
        generate_readme(SOURCE, None, WITH_LICENSE, true, true, false),
        Ok("# foo\n\nhello\n```rust\nlet x = 1;\n```\n\nLicense: MIT".to_owned())
    );
}

#[test]
fn readme_with_title_through_the_template() {
    assert_eq!(
        generate_readme(SOURCE, Some("{{readme}}"), WITHOUT_LICENSE, true, false, false),
        Ok("# foo\n\nhello\n```rust\nlet x = 1;\n```".to_owned())
    );
}

#[test]
fn readme_with_decorations_inside_the_template() {
    assert_eq!(
        generate_readme(
            "//! body\n",
            Some("prefix {{readme}} suffix"),
            WITH_LICENSE,
            true,
            true,
            true
        ),
        Ok("prefix # foo\n\nbody\n\nLicense: MIT suffix".to_owned())
    );
}

#[test]
fn readme_with_every_placeholder() {
    assert_eq!(
        generate_readme(
            "//! # Usage\n//! text\nfn main() {}\n",
            Some("# {{crate}}\n\n{{readme}}\n\nLicensed under {{license}}.\n"),
            WITH_LICENSE,
            true,
            true,
            true
        ),
        Ok("# foo\n\n## Usage\ntext\n\nLicensed under MIT.".to_owned())
    );
}

#[test]
fn no_license_is_refused_before_the_template_is_read() {
    assert_eq!(
        generate_readme(SOURCE, None, WITHOUT_LICENSE, false, true, false),
        Err(ReadmeError::NoLicense)
    );
    assert_eq!(
        generate_readme(SOURCE, Some("{{readme}}"), WITHOUT_LICENSE, true, true, true),
        Err(ReadmeError::NoLicense)
    );
    assert_eq!(
        generate_readme(SOURCE, Some("{{license}}"), WITHOUT_LICENSE, false, true, false),
        Err(ReadmeError::NoLicense)
    );
    assert_eq!(
        generate_readme(SOURCE, Some("nothing"), WITHOUT_LICENSE, false, true, false),
        Err(ReadmeError::NoLicense)
    );
}

#[test]
fn a_bad_manifest_is_refused_before_all_else() {
    assert_eq!(
        generate_readme(SOURCE, Some("nothing"), "[workspace]\n", true, true, true),
        Err(ReadmeError::Metadata)
    );
    assert_eq!(
        generate_readme(SOURCE, None, "not toml", false, false, false),
        Err(ReadmeError::Metadata)
    );
}

#[test]
fn template_errors_reach_the_caller() {
    assert_eq!(
        generate_readme(SOURCE, Some("{{crate}}"), WITH_LICENSE, true, true, true),
        Err(ReadmeError::MissingReadme)
    );
    assert_eq!(
        generate_readme(SOURCE, Some("{{readme}} {{license}}"), WITHOUT_LICENSE, true, false, true),
        Err(ReadmeError::LicenseInTemplate)
    );
}

#[test]
fn generate_takes_matcher_and_crate_info() {
    let matcher = FenceMatcher::new().unwrap();
    let info = CrateInfo::new("bar".to_owned(), Some("MIT".to_owned())).unwrap();
    assert_eq!(
        generate(&matcher, "//! # Top\n//! text\n", None, &info, true, true, true),
        Ok("# bar\n\n## Top\ntext\n\nLicense: MIT".to_owned())
    );
    assert_eq!(
        generate(&matcher, "//! # Top\n//! text\n", Some("{{readme}}\n"), &info, false, false, false),
        Ok("# Top\ntext".to_owned())
    );
}

#[test]
fn an_empty_source_gives_an_empty_body() {
    assert_eq!(generate_readme("", None, WITH_LICENSE, false, false, true), Ok(String::new()));
    assert_eq!(
        generate_readme("fn main() {}\n", None, WITH_LICENSE, true, false, true),
        Ok("# foo\n\n".to_owned())
    );
}

#[test]
fn extraction_then_merge_puts_the_title_first() {
    let body = fold_data(extract(SOURCE, false).unwrap());
    let info = CrateInfo::new("foo".to_owned(), None).unwrap();
    assert_eq!(
        process_template("{{readme}}", body, &info, true, false),
        Ok("# foo\n\nhello\n```rust\nlet x = 1;\n```".to_owned())
    );
}

#[test]
fn the_root_offers_the_steps() {
    let info = cargo_readme::get_crate_info(WITH_LICENSE).unwrap();
    let body = cargo_readme::fold_data(cargo_readme::extract("//! a\n//! b\n", true).unwrap());
    assert_eq!(body, "a\nb");
    assert_eq!(
        cargo_readme::render(body, None, &info, true, true),
        cargo_readme::generate_readme("//! a\n//! b\n", None, WITH_LICENSE, true, true, true)
    );
}
