use vstd::prelude::*;
use crate::foreign::io_error_text;
use crate::text::concat;

verus! {

/// Failure of ARM GCC toolchain deployment.
#[derive(Debug)]
#[non_exhaustive]
pub enum ToolchainError {
    /// An external tool could not be started.
    Process {
        /// Program that could not be started.
        program: String,
        /// Underlying operating system error.
        source: std::io::Error,
    },
    /// A file system operation failed.
    Io(std::io::Error),
}

/// Text of a toolchain error, where it is made of the error's own fields.
pub open spec fn spec_toolchain_message(error: ToolchainError) -> Option<Seq<char>> {
    match error {
        ToolchainError::Process { program, .. } => Some("Failed to run "@ + program@),
        ToolchainError::Io(_) => None,
    }
}

impl ToolchainError {
    /// Human-readable text of the error; an I/O failure reads as the text of the underlying
    /// error.
    pub fn message(&self) -> (m: String)
        ensures
            spec_toolchain_message(*self) matches Some(text) ==> m@ == text,
    {
        match self {
            ToolchainError::Process { program, .. } => concat("Failed to run ", program.as_str()),
            ToolchainError::Io(e) => io_error_text(e),
        }
    }
}

impl From<std::io::Error> for ToolchainError {
    fn from(error: std::io::Error) -> (r: ToolchainError) {
        ToolchainError::Io(error)
    }
}

impl vstd::std_specs::convert::FromSpecImpl<std::io::Error> for ToolchainError {
    open spec fn obeys_from_spec() -> bool {
        true
    }

    open spec fn from_spec(error: std::io::Error) -> ToolchainError {
        ToolchainError::Io(error)
    }
}

} // verus!
