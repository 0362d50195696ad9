//! Builds a README from the `//!` comments of a Rust source file.
//!
//! The comment lines are read one by one. A fence that opens a block of Rust
//! code, whatever annotation it carries, becomes `` ```rust ``; the lines that
//! such a block hides stay hidden; headings may move one level down, so that
//! the crate's name can be the title. The lines are joined to the body of the
//! README, which then goes into a template, or gets a title and a license
//! line of its own.
//!
//! [`generate_readme`] does all of it. The steps are there one by one:
//! [`extract`], [`fold_data`], [`get_crate_info`], [`process_template`],
//! [`prepend_title`] and [`append_license`]. What holds of them on every
//! input is proved in [`laws`].

pub mod body;
pub mod document;
pub mod error;
pub mod extractor;
pub mod fence;
pub mod laws;
pub mod manifest;
pub mod pattern;
pub mod readme;
pub mod template;
pub mod text;

pub use body::{append_license, fold_data, prepend_title};
pub use error::ReadmeError;
pub use extractor::{extract, FenceMatcher};
pub use fence::Fence;
pub use manifest::{get_crate_info, CrateInfo};
pub use readme::{generate, generate_readme, render};
pub use template::process_template;
