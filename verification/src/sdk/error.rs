use vstd::prelude::*;
use vstd::string::*;
use crate::foreign::{io_error_text, zip_error_text};
use crate::net::{spec_fetch_message, FetchError};
use crate::text::concat;

verus! {

/// Failure of SDK channel resolution or SDK deployment.
#[derive(Debug)]
#[non_exhaustive]
pub enum SdkError {
    /// A deploy task named a loader mode that no loader implements.
    InvalidMode {
        /// Mode key taken from the deploy task.
        mode: String,
    },
    /// A branch listing offered more than one SDK version.
    MultipleVersions {
        /// Version discovered first.
        first: String,
        /// Version that contradicts it.
        second: String,
    },
    /// A branch listing has no SDK bundle for the requested hardware target.
    SdkBundleNotFound {
        /// Requested hardware target.
        target: String,
    },
    /// Version information was requested before the loader had been loaded.
    LoaderNotInitialized,
    /// The directory index is not valid JSON.
    InvalidJson {
        /// Message reported by the JSON parser.
        message: String,
    },
    /// The requested update channel is not present in the directory index.
    InvalidChannel {
        /// Channel key as requested by the caller.
        channel: String,
    },
    /// The requested update channel carries no versions.
    EmptyChannel {
        /// Channel key as requested by the caller.
        channel: String,
    },
    /// The selected version carries no files.
    EmptyFilesList,
    /// The selected version has no file of the requested type.
    InvalidFileType {
        /// Upper-case identifier of the file type.
        file_type: String,
    },
    /// The selected file has an empty download URL.
    InvalidFileUrl,
    /// A deploy task named a loader mode without the parameter that mode needs.
    MissingParam {
        /// Mode key taken from the deploy task.
        mode: String,
        /// Name of the parameter the mode requires.
        param: String,
    },
    /// The SDK bundle or the directory index could not be downloaded.
    Fetch(FetchError),
    /// The SDK bundle could not be unpacked.
    Zip(zip::result::ZipError),
    /// A file system operation failed.
    Io(std::io::Error),
}

/// Text of an SDK error, where it is made of the error's own fields.
pub open spec fn spec_sdk_message(error: SdkError) -> Option<Seq<char>> {
    match error {
        SdkError::InvalidMode { mode } => Some("Invalid mode: "@ + mode@),
        SdkError::MultipleVersions { first, second } => Some(
            "Found multiple versions: "@ + first@ + " and "@ + second@,
        ),
        SdkError::SdkBundleNotFound { target } => Some("SDK bundle not found for "@ + target@),
        SdkError::LoaderNotInitialized => Some("Loader is not initialized"@),
        SdkError::InvalidJson { message } => Some("Invalid JSON: "@ + message@),
        SdkError::InvalidChannel { channel } => Some("Invalid channel: "@ + channel@),
        SdkError::EmptyChannel { channel } => Some("Empty channel: "@ + channel@),
        SdkError::EmptyFilesList => Some("Empty files list"@),
        SdkError::InvalidFileType { file_type } => Some(
            "Invalid file type: FileType."@ + file_type@,
        ),
        SdkError::InvalidFileUrl => Some("Invalid file url"@),
        SdkError::MissingParam { mode, param } => Some(
            "Missing "@ + param@ + " parameter for mode "@ + mode@,
        ),
        SdkError::Fetch(e) => spec_fetch_message(e),
        SdkError::Zip(_) => None,
        SdkError::Io(_) => None,
    }
}

impl SdkError {
    /// Human-readable text of the error. A download failure reads as the text of the
    /// [`FetchError`], and an unpacking or I/O failure as the text of the underlying error.
    pub fn message(&self) -> (m: String)
        ensures
            spec_sdk_message(*self) matches Some(text) ==> m@ == text,
    {
        match self {
            SdkError::InvalidMode { mode } => concat("Invalid mode: ", mode.as_str()),
            SdkError::MultipleVersions { first, second } => {
                let mut m = concat("Found multiple versions: ", first.as_str());
                m.append(" and ");
                m.append(second.as_str());
                m
            },
            SdkError::SdkBundleNotFound { target } => concat(
                "SDK bundle not found for ",
                target.as_str(),
            ),
            SdkError::LoaderNotInitialized => "Loader is not initialized".to_owned(),
            SdkError::InvalidJson { message } => concat("Invalid JSON: ", message.as_str()),
            SdkError::InvalidChannel { channel } => concat("Invalid channel: ", channel.as_str()),
            SdkError::EmptyChannel { channel } => concat("Empty channel: ", channel.as_str()),
            SdkError::EmptyFilesList => "Empty files list".to_owned(),
            SdkError::InvalidFileType { file_type } => concat(
                "Invalid file type: FileType.",
                file_type.as_str(),
            ),
            SdkError::InvalidFileUrl => "Invalid file url".to_owned(),
            SdkError::MissingParam { mode, param } => {
                let mut m = concat("Missing ", param.as_str());
                m.append(" parameter for mode ");
                m.append(mode.as_str());
                m
            },
            SdkError::Fetch(e) => e.message(),
            SdkError::Zip(e) => zip_error_text(e),
            SdkError::Io(e) => io_error_text(e),
        }
    }
}

impl From<FetchError> for SdkError {
    fn from(error: FetchError) -> (r: SdkError) {
        SdkError::Fetch(error)
    }
}

impl vstd::std_specs::convert::FromSpecImpl<FetchError> for SdkError {
    open spec fn obeys_from_spec() -> bool {
        true
    }

    open spec fn from_spec(error: FetchError) -> SdkError {
        SdkError::Fetch(error)
    }
}

impl From<zip::result::ZipError> for SdkError {
    fn from(error: zip::result::ZipError) -> (r: SdkError) {
        SdkError::Zip(error)
    }
}

impl vstd::std_specs::convert::FromSpecImpl<zip::result::ZipError> for SdkError {
    open spec fn obeys_from_spec() -> bool {
        true
    }

    open spec fn from_spec(error: zip::result::ZipError) -> SdkError {
        SdkError::Zip(error)
    }
}

impl From<std::io::Error> for SdkError {
    fn from(error: std::io::Error) -> (r: SdkError) {
        SdkError::Io(error)
    }
}

impl vstd::std_specs::convert::FromSpecImpl<std::io::Error> for SdkError {
    open spec fn obeys_from_spec() -> bool {
        true
    }

    open spec fn from_spec(error: std::io::Error) -> SdkError {
        SdkError::Io(error)
    }
}

} // verus!
