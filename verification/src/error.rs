//! The ways in which making a README fails.

use vstd::prelude::*;

verus! {

/// Why no README was made.
#[derive(Clone, Copy, Debug, PartialEq, Eq, Structural)]
pub enum ReadmeError {
    /// A license line was asked for, and the crate has no license.
    NoLicense,
    /// The template has no `{{readme}}`.
    MissingReadme,
    /// The template has a `{{license}}`, and the crate has no license.
    LicenseInTemplate,
    /// The manifest is no TOML document, or it gives the crate no name, or
    /// its license is not a string.
    Metadata,
    /// A fence pattern was refused as a regular expression.
    Pattern,
}

impl ReadmeError {
    /// The text of the message.
    pub open spec fn text(self) -> Seq<char> {
        match self {
            ReadmeError::NoLicense => "There is no license in Cargo.toml"@,
            ReadmeError::MissingReadme => "Missing `{{readme}}` in template"@,
            ReadmeError::LicenseInTemplate =>
                "`{{license}}` found in template but there is no license in Cargo.toml"@,
            ReadmeError::Metadata => "Cargo.toml does not give the crate's name and license"@,
            ReadmeError::Pattern => "A fence pattern is not a regular expression"@,
        }
    }

    /// The message for the user.
    pub fn message(&self) -> (s: String)
        ensures
            s@ == self.text(),
    {
        match self {
            ReadmeError::NoLicense => "There is no license in Cargo.toml".to_owned(),
            ReadmeError::MissingReadme => "Missing `{{readme}}` in template".to_owned(),
            ReadmeError::LicenseInTemplate =>
                "`{{license}}` found in template but there is no license in Cargo.toml".to_owned(),
            ReadmeError::Metadata =>
                "Cargo.toml does not give the crate's name and license".to_owned(),
            ReadmeError::Pattern => "A fence pattern is not a regular expression".to_owned(),
        }
    }
}

/// Whether the outcome `r` is `expected`: the same text, or the same error.
pub open spec fn is_outcome(
    r: Result<String, ReadmeError>,
    expected: Result<Seq<char>, ReadmeError>,
) -> bool {
    match r {
        Ok(text) => expected == Ok::<Seq<char>, ReadmeError>(text@),
        Err(e) => expected == Err::<Seq<char>, ReadmeError>(e),
    }
}

} // verus!
