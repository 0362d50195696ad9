//! The whole way from a source file to its README.

use crate::body::{append_license, fold_data, joined, licensed, prepend_title, titled};
use crate::error::{is_outcome, ReadmeError};
use crate::extractor::{extracted, patterns_compile, FenceMatcher};
use crate::manifest::{crate_info, get_crate_info, CrateInfo, CrateInfoView};
use crate::template::{merged, process_template};
use vstd::prelude::*;

verus! {

/// The body with what was asked for around it: the title above, the license
/// line below. A license line for a crate without a license is `NoLicense`.
pub open spec fn decorated(
    body: Seq<char>,
    info: CrateInfoView,
    add_title: bool,
    add_license: bool,
) -> Result<Seq<char>, ReadmeError> {
    let top = if add_title {
        titled(body, info.name)
    } else {
        body
    };
    if add_license {
        match info.license {
            Some(license) => Ok(licensed(top, license)),
            None => Err(ReadmeError::NoLicense),
        }
    } else {
        Ok(top)
    }
}

/// The README for the body `body`. A license line that is asked for of a
/// crate without a license is `NoLicense`, whatever the template holds; else
/// the template decides, and without a template the body is decorated.
pub open spec fn rendered(
    body: Seq<char>,
    template: Option<Seq<char>>,
    info: CrateInfoView,
    add_title: bool,
    add_license: bool,
) -> Result<Seq<char>, ReadmeError> {
    if add_license && info.license is None {
        Err(ReadmeError::NoLicense)
    } else {
        match template {
            Some(template) => merged(template, body, info, add_title, add_license),
            None => decorated(body, info, add_title, add_license),
        }
    }
}

/// The README of the source text `source` for the crate `info`.
pub open spec fn readme_of(
    source: Seq<char>,
    template: Option<Seq<char>>,
    info: CrateInfoView,
    add_title: bool,
    add_license: bool,
    indent_headings: bool,
) -> Result<Seq<char>, ReadmeError> {
    rendered(joined(extracted(source, indent_headings)), template, info, add_title, add_license)
}

/// The README of the source text `source` for the crate whose manifest is
/// `manifest`. What the manifest fails on comes before all else.
pub open spec fn generated(
    source: Seq<char>,
    template: Option<Seq<char>>,
    manifest: Seq<char>,
    add_title: bool,
    add_license: bool,
    indent_headings: bool,
) -> Result<Seq<char>, ReadmeError> {
    match crate_info(manifest) {
        Ok(info) => readme_of(source, template, info, add_title, add_license, indent_headings),
        Err(e) => Err(e),
    }
}

/// Makes the README from its body.
pub fn render(
    body: String,
    template: Option<&str>,
    crate_info: &CrateInfo,
    add_title: bool,
    add_license: bool,
) -> (r: Result<String, ReadmeError>)
    ensures
        is_outcome(r, rendered(body@, template.deep_view(), crate_info@, add_title, add_license)),
{
    if add_license && crate_info.license().is_none() {
        return Err(ReadmeError::NoLicense);
    }
    match template {
        Some(template) => process_template(template, body, crate_info, add_title, add_license),
        None => {
            let mut readme = body;
            if add_title {
                readme = prepend_title(readme, crate_info.name());
            }
            if add_license {
                match crate_info.license() {
                    Some(license) => {
                        readme = append_license(readme, license);
                    },
                    None => {
                        return Err(ReadmeError::NoLicense);
                    },
                }
            }
            Ok(readme)
        },
    }
}

/// Makes the README of `source` for the crate `crate_info`, with the fence
/// patterns that `matcher` holds.
pub fn generate(
    matcher: &FenceMatcher,
    source: &str,
    template: Option<&str>,
    crate_info: &CrateInfo,
    add_title: bool,
    add_license: bool,
    indent_headings: bool,
) -> (r: Result<String, ReadmeError>)
    ensures
        is_outcome(
            r,
            readme_of(
                source@,
                template.deep_view(),
                crate_info@,
                add_title,
                add_license,
                indent_headings,
            ),
        ),
{
    let body = fold_data(matcher.extract(source, indent_headings));
    render(body, template, crate_info, add_title, add_license)
}

/// Makes the README of `source` for the crate whose manifest is `manifest`.
/// The fence patterns are compiled first: where the regular expression engine
/// refuses one, that is the error, whatever the rest holds.
pub fn generate_readme(
    source: &str,
    template: Option<&str>,
    manifest: &str,
    add_title: bool,
    add_license: bool,
    indent_headings: bool,
) -> (r: Result<String, ReadmeError>)
    ensures
        patterns_compile() ==> is_outcome(
            r,
            generated(
                source@,
                template.deep_view(),
                manifest@,
                add_title,
                add_license,
                indent_headings,
            ),
        ),
        !patterns_compile() ==> r == Err::<String, ReadmeError>(ReadmeError::Pattern),
{
    let matcher = match FenceMatcher::new() {
        Ok(matcher) => matcher,
        Err(e) => return Err(e),
    };
    let crate_info = match get_crate_info(manifest) {
        Ok(crate_info) => crate_info,
        Err(e) => return Err(e),
    };
    generate(&matcher, source, template, &crate_info, add_title, add_license, indent_headings)
}

} // verus!
