use vstd::prelude::*;
use crate::build::error::{spec_build_message, spec_bundle_message, spec_elf_message, spec_fam_parse_message, spec_icon_message, spec_manifest_message};
use crate::build::{BuildError, BundleError, ElfError, FamParseError, IconError, ManifestError};
use crate::foreign::io_error_text;
use crate::net::{spec_fetch_message, FetchError};
use crate::sdk::error::spec_sdk_message;
use crate::sdk::SdkError;
use crate::toolchain::error::spec_toolchain_message;
use crate::toolchain::ToolchainError;

verus! {

/// Any failure the crate can report.
///
/// Individual operations return the narrowest error type that fits; this aggregate exists
/// for callers that drive several of them and want a single error type to propagate.
#[derive(Debug)]
#[non_exhaustive]
pub enum UfbtError {
    /// An HTTP download failed.
    Fetch(FetchError),
    /// SDK resolution or deployment failed.
    Sdk(SdkError),
    /// Toolchain deployment failed.
    Toolchain(ToolchainError),
    /// An application manifest could not be parsed.
    FamParse(FamParseError),
    /// An application manifest could not be loaded or validated.
    Manifest(ManifestError),
    /// An application build failed.
    Build(BuildError),
    /// An ELF could not be parsed.
    Elf(ElfError),
    /// Icon assets could not be compiled.
    Icon(IconError),
    /// File assets could not be bundled.
    Bundle(BundleError),
    /// A file system operation failed.
    Io(std::io::Error),
}

/// Text of an error: that of the error it carries, where that text is made of its own
/// fields.
pub open spec fn spec_error_message(error: UfbtError) -> Option<Seq<char>> {
    match error {
        UfbtError::Fetch(e) => spec_fetch_message(e),
        UfbtError::Sdk(e) => spec_sdk_message(e),
        UfbtError::Toolchain(e) => spec_toolchain_message(e),
        UfbtError::FamParse(e) => Some(spec_fam_parse_message(e)),
        UfbtError::Manifest(e) => spec_manifest_message(e),
        UfbtError::Build(e) => spec_build_message(e),
        UfbtError::Elf(e) => spec_elf_message(e),
        UfbtError::Icon(e) => spec_icon_message(e),
        UfbtError::Bundle(e) => spec_bundle_message(e),
        UfbtError::Io(_) => None,
    }
}

impl UfbtError {
    /// Human-readable text of the error: the text of the error it carries.
    pub fn message(&self) -> (m: String)
        ensures
            spec_error_message(*self) matches Some(text) ==> m@ == text,
    {
        match self {
            UfbtError::Fetch(e) => e.message(),
            UfbtError::Sdk(e) => e.message(),
            UfbtError::Toolchain(e) => e.message(),
            UfbtError::FamParse(e) => e.message(),
            UfbtError::Manifest(e) => e.message(),
            UfbtError::Build(e) => e.message(),
            UfbtError::Elf(e) => e.message(),
            UfbtError::Icon(e) => e.message(),
            UfbtError::Bundle(e) => e.message(),
            UfbtError::Io(e) => io_error_text(e),
        }
    }
}

impl From<FetchError> for UfbtError {
    fn from(error: FetchError) -> (r: UfbtError) {
        UfbtError::Fetch(error)
    }
}

impl vstd::std_specs::convert::FromSpecImpl<FetchError> for UfbtError {
    open spec fn obeys_from_spec() -> bool {
        true
    }

    open spec fn from_spec(error: FetchError) -> UfbtError {
        UfbtError::Fetch(error)
    }
}

impl From<SdkError> for UfbtError {
    fn from(error: SdkError) -> (r: UfbtError) {
        UfbtError::Sdk(error)
    }
}

impl vstd::std_specs::convert::FromSpecImpl<SdkError> for UfbtError {
    open spec fn obeys_from_spec() -> bool {
        true
    }

    open spec fn from_spec(error: SdkError) -> UfbtError {
        UfbtError::Sdk(error)
    }
}

impl From<ToolchainError> for UfbtError {
    fn from(error: ToolchainError) -> (r: UfbtError) {
        UfbtError::Toolchain(error)
    }
}

impl vstd::std_specs::convert::FromSpecImpl<ToolchainError> for UfbtError {
    open spec fn obeys_from_spec() -> bool {
        true
    }

    open spec fn from_spec(error: ToolchainError) -> UfbtError {
        UfbtError::Toolchain(error)
    }
}

impl From<FamParseError> for UfbtError {
    fn from(error: FamParseError) -> (r: UfbtError) {
        UfbtError::FamParse(error)
    }
}

impl vstd::std_specs::convert::FromSpecImpl<FamParseError> for UfbtError {
    open spec fn obeys_from_spec() -> bool {
        true
    }

    open spec fn from_spec(error: FamParseError) -> UfbtError {
        UfbtError::FamParse(error)
    }
}

impl From<ManifestError> for UfbtError {
    fn from(error: ManifestError) -> (r: UfbtError) {
        UfbtError::Manifest(error)
    }
}

impl vstd::std_specs::convert::FromSpecImpl<ManifestError> for UfbtError {
    open spec fn obeys_from_spec() -> bool {
        true
    }

    open spec fn from_spec(error: ManifestError) -> UfbtError {
        UfbtError::Manifest(error)
    }
}

impl From<BuildError> for UfbtError {
    fn from(error: BuildError) -> (r: UfbtError) {
        UfbtError::Build(error)
    }
}

impl vstd::std_specs::convert::FromSpecImpl<BuildError> for UfbtError {
    open spec fn obeys_from_spec() -> bool {
        true
    }

    open spec fn from_spec(error: BuildError) -> UfbtError {
        UfbtError::Build(error)
    }
}

impl From<ElfError> for UfbtError {
    fn from(error: ElfError) -> (r: UfbtError) {
        UfbtError::Elf(error)
    }
}

impl vstd::std_specs::convert::FromSpecImpl<ElfError> for UfbtError {
    open spec fn obeys_from_spec() -> bool {
        true
    }

    open spec fn from_spec(error: ElfError) -> UfbtError {
        UfbtError::Elf(error)
    }
}

impl From<IconError> for UfbtError {
    fn from(error: IconError) -> (r: UfbtError) {
        UfbtError::Icon(error)
    }
}

impl vstd::std_specs::convert::FromSpecImpl<IconError> for UfbtError {
    open spec fn obeys_from_spec() -> bool {
        true
    }

    open spec fn from_spec(error: IconError) -> UfbtError {
        UfbtError::Icon(error)
    }
}

impl From<BundleError> for UfbtError {
    fn from(error: BundleError) -> (r: UfbtError) {
        UfbtError::Bundle(error)
    }
}

impl vstd::std_specs::convert::FromSpecImpl<BundleError> for UfbtError {
    open spec fn obeys_from_spec() -> bool {
        true
    }

    open spec fn from_spec(error: BundleError) -> UfbtError {
        UfbtError::Bundle(error)
    }
}

impl From<std::io::Error> for UfbtError {
    fn from(error: std::io::Error) -> (r: UfbtError) {
        UfbtError::Io(error)
    }
}

impl vstd::std_specs::convert::FromSpecImpl<std::io::Error> for UfbtError {
    open spec fn obeys_from_spec() -> bool {
        true
    }

    open spec fn from_spec(error: std::io::Error) -> UfbtError {
        UfbtError::Io(error)
    }
}

} // verus!
