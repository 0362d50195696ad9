//! The crate's name and license, as its manifest gives them.

use crate::document::{as_str, get, parse_document, toml_document, toml_entry, toml_string};
use crate::error::ReadmeError;
use toml::Value;
use vstd::prelude::*;

verus! {

/// What is known of a crate: its name, and its license if it has one.
pub struct CrateInfoView {
    pub name: Seq<char>,
    pub license: Option<Seq<char>>,
}

/// A crate's name, which is not empty, and its license, if it has one.
#[derive(Debug)]
pub struct CrateInfo {
    name: String,
    license: Option<String>,
}

impl View for CrateInfo {
    type V = CrateInfoView;

    closed spec fn view(&self) -> CrateInfoView {
        CrateInfoView { name: self.name@, license: self.license.deep_view() }
    }
}

impl CrateInfo {
    #[verifier::type_invariant]
    spec fn has_a_name(self) -> bool {
        self.name@.len() > 0
    }

    /// The crate `name` with the license `license`; an empty name is refused.
    pub fn new(name: String, license: Option<String>) -> (r: Result<CrateInfo, ReadmeError>)
        ensures
            match r {
                Ok(info) => name@.len() > 0 && info@ == (CrateInfoView {
                    name: name@,
                    license: license.deep_view(),
                }),
                Err(e) => name@.len() == 0 && e == ReadmeError::Metadata,
            },
    {
        if name.as_str().is_empty() {
            Err(ReadmeError::Metadata)
        } else {
            Ok(CrateInfo { name, license })
        }
    }

    /// The crate's name.
    pub fn name(&self) -> (name: &str)
        ensures
            name@ == self@.name,
            name@.len() > 0,
    {
        proof {
            use_type_invariant(self);
        }
        self.name.as_str()
    }

    /// The crate's license, if it has one.
    pub fn license(&self) -> (license: Option<&str>)
        ensures
            license.deep_view() == self@.license,
    {
        match &self.license {
            Some(text) => Some(text.as_str()),
            None => None,
        }
    }
}

/// The text under `key` in the table `table`: `Some(None)` where the table
/// has no such key, `None` where what it has there is no string.
pub open spec fn text_entry(table: Value, key: Seq<char>) -> Option<Option<Seq<char>>> {
    match toml_entry(table, key) {
        None => Some(None),
        Some(value) => match toml_string(value) {
            Some(text) => Some(Some(text)),
            None => None,
        },
    }
}

/// What the manifest `manifest` says of the crate: the strings under `name`
/// and `license` in its table `package`. It is an error where the manifest
/// is no TOML document, where it has no `package`, where the name is
/// missing, empty or not a string, and where the license is not a string.
pub open spec fn crate_info(manifest: Seq<char>) -> Result<CrateInfoView, ReadmeError> {
    match toml_document(manifest) {
        None => Err(ReadmeError::Metadata),
        Some(table) => match toml_entry(table, "package"@) {
            None => Err(ReadmeError::Metadata),
            Some(package) => match (text_entry(package, "name"@), text_entry(package, "license"@)) {
                (Some(Some(name)), Some(license)) => if name.len() > 0 {
                    Ok(CrateInfoView { name, license })
                } else {
                    Err(ReadmeError::Metadata)
                },
                _ => Err(ReadmeError::Metadata),
            },
        },
    }
}

/// The text under `key` in `table`.
fn get_text(table: &Value, key: &str) -> (r: Option<Option<String>>)
    ensures
        r.deep_view() == text_entry(*table, key@),
{
    match get(table, key) {
        None => Some(None),
        Some(value) => match as_str(value) {
            Some(text) => Some(Some(text.to_owned())),
            None => None,
        },
    }
}

/// Reads the crate's name and license from the text of its manifest.
pub fn get_crate_info(manifest: &str) -> (r: Result<CrateInfo, ReadmeError>)
    ensures
        match r {
            Ok(info) => crate_info(manifest@) == Ok::<CrateInfoView, ReadmeError>(info@),
            Err(e) => crate_info(manifest@) == Err::<CrateInfoView, ReadmeError>(e),
        },
{
    let table = match parse_document(manifest) {
        Ok(table) => table,
        Err(_) => return Err(ReadmeError::Metadata),
    };
    let package = match get(&table, "package") {
        Some(package) => package,
        None => return Err(ReadmeError::Metadata),
    };
    let name = match get_text(package, "name") {
        Some(Some(name)) => name,
        _ => return Err(ReadmeError::Metadata),
    };
    let license = match get_text(package, "license") {
        Some(license) => license,
        None => return Err(ReadmeError::Metadata),
    };
    CrateInfo::new(name, license)
}

} // verus!
