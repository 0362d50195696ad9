//! A template, and the README that it gives once its three placeholders are
//! filled in.

use crate::body::{append_license, licensed, prepend_title, titled};
use crate::error::{is_outcome, ReadmeError};
use crate::manifest::{CrateInfo, CrateInfoView};
use crate::text::{
    chars_of, contains, occurs, replace, replaced, string_from, trim_line_feed, without_line_feed,
};
use vstd::prelude::*;

verus! {

/// The placeholder for the crate's name.
pub const CRATE_TOKEN: &'static str = "{{crate}}";

/// The placeholder for the crate's license.
pub const LICENSE_TOKEN: &'static str = "{{license}}";

/// The placeholder for the body of the README.
pub const README_TOKEN: &'static str = "{{readme}}";

/// A template and a body on their way to a README.
pub struct Draft {
    pub template: Seq<char>,
    pub body: Seq<char>,
}

/// The draft after the step for the title. Where a title is asked for and the
/// template has no place for the crate's name, the body gets the title;
/// else the name goes to each such place.
pub open spec fn with_title(draft: Draft, name: Seq<char>, add_title: bool) -> Draft {
    if add_title && !occurs(draft.template, CRATE_TOKEN@) {
        Draft { template: draft.template, body: titled(draft.body, name) }
    } else {
        Draft { template: replaced(draft.template, CRATE_TOKEN@, name), body: draft.body }
    }
}

/// The draft after the step for the license. Where a license line is asked
/// for and the template has no place for the license, the body gets the
/// line; else, where the template has such places, the license goes to each
/// of them, asked for or not. Both need the license: where the crate has
/// none, the first is `NoLicense` and the second `LicenseInTemplate`.
pub open spec fn with_license(
    draft: Draft,
    license: Option<Seq<char>>,
    add_license: bool,
) -> Result<Draft, ReadmeError> {
    if add_license && !occurs(draft.template, LICENSE_TOKEN@) {
        match license {
            Some(text) => Ok(Draft { template: draft.template, body: licensed(draft.body, text) }),
            None => Err(ReadmeError::NoLicense),
        }
    } else if occurs(draft.template, LICENSE_TOKEN@) {
        match license {
            Some(text) => Ok(
                Draft {
                    template: replaced(draft.template, LICENSE_TOKEN@, text),
                    body: draft.body,
                },
            ),
            None => Err(ReadmeError::LicenseInTemplate),
        }
    } else {
        Ok(draft)
    }
}

/// The README of a draft: the template with the body at each place for it.
/// A template without such a place is `MissingReadme`.
pub open spec fn filled(draft: Draft) -> Result<Seq<char>, ReadmeError> {
    if occurs(draft.template, README_TOKEN@) {
        Ok(replaced(draft.template, README_TOKEN@, draft.body))
    } else {
        Err(ReadmeError::MissingReadme)
    }
}

/// The README that `template` gives for `body`: the template loses the line
/// feed that ends it, if one does; then come the step for the title, the step
/// for the license, and the body's own.
pub open spec fn merged(
    template: Seq<char>,
    body: Seq<char>,
    info: CrateInfoView,
    add_title: bool,
    add_license: bool,
) -> Result<Seq<char>, ReadmeError> {
    let start = Draft { template: without_line_feed(template), body };
    match with_license(with_title(start, info.name, add_title), info.license, add_license) {
        Ok(draft) => filled(draft),
        Err(e) => Err(e),
    }
}

/// Fills the template in: the crate's name, its license and the body of the
/// README, each at its placeholder; a title and a license line that are asked
/// for and have no placeholder go around the body.
pub fn process_template(
    template: &str,
    readme: String,
    crate_info: &CrateInfo,
    add_title: bool,
    add_license: bool,
) -> (r: Result<String, ReadmeError>)
    ensures
        is_outcome(r, merged(template@, readme@, crate_info@, add_title, add_license)),
{
    let mut template = chars_of(template);
    trim_line_feed(&mut template);
    let mut readme = readme;

    if add_title && !contains(&template, CRATE_TOKEN) {
        readme = prepend_title(readme, crate_info.name());
    } else {
        template = replace(&template, CRATE_TOKEN, &chars_of(crate_info.name()));
    }

    if add_license && !contains(&template, LICENSE_TOKEN) {
        match crate_info.license() {
            Some(license) => {
                readme = append_license(readme, license);
            },
            None => {
                return Err(ReadmeError::NoLicense);
            },
        }
    } else if contains(&template, LICENSE_TOKEN) {
        match crate_info.license() {
            Some(license) => {
                template = replace(&template, LICENSE_TOKEN, &chars_of(license));
            },
            None => {
                return Err(ReadmeError::LicenseInTemplate);
            },
        }
    }

    if !contains(&template, README_TOKEN) {
        return Err(ReadmeError::MissingReadme);
    }
    let text = replace(&template, README_TOKEN, &chars_of(readme.as_str()));
    Ok(string_from(&text))
}

} // verus!
