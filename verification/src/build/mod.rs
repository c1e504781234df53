//! Failures an application build reports.
pub mod error;

pub use error::{BuildError, BundleError, ElfError, FamParseError, IconError, ManifestError};
