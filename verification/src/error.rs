//! What can go wrong when the tool is run and its answer is read.
use vstd::prelude::*;

verus! {

/// Why an operation failed. The kinds are flat: which of them applies says
/// all that is known, and each carries the error that gave rise to it.
#[derive(Debug)]
pub enum HelmWrapperError {
    /// The tool's output was text, but not of the expected form.
    DeserializationError(serde_json::Error),
    /// The tool's output was not UTF-8.
    NonUtf8Error(std::string::FromUtf8Error),
    /// The tool could not be started.
    ExecutionError(std::io::Error),
    /// The tool ran and reported failure.
    Error,
}

/// The sentence that describes each kind of error.
pub open spec fn message_of(error: HelmWrapperError) -> Seq<char> {
    match error {
        HelmWrapperError::DeserializationError(_) => "Unable to understand helm response format"@,
        HelmWrapperError::NonUtf8Error(_) => "Unsupported helm non-utf8 output"@,
        HelmWrapperError::ExecutionError(_) => "Helm command execution error"@,
        HelmWrapperError::Error => "Helm command execution error"@,
    }
}

impl HelmWrapperError {
    /// The sentence that describes this kind of error.
    pub fn message(&self) -> (text: String)
        ensures
            text@ == message_of(*self),
    {
        match self {
            HelmWrapperError::DeserializationError(_) => {
                "Unable to understand helm response format".to_owned()
            },
            HelmWrapperError::NonUtf8Error(_) => "Unsupported helm non-utf8 output".to_owned(),
            HelmWrapperError::ExecutionError(_) => "Helm command execution error".to_owned(),
            HelmWrapperError::Error => "Helm command execution error".to_owned(),
        }
    }
}

impl From<serde_json::Error> for HelmWrapperError {
    fn from(error: serde_json::Error) -> (wrapped: Self) {
        HelmWrapperError::DeserializationError(error)
    }
}

impl vstd::std_specs::convert::FromSpecImpl<serde_json::Error> for HelmWrapperError {
    open spec fn obeys_from_spec() -> bool {
        true
    }

    open spec fn from_spec(error: serde_json::Error) -> Self {
        HelmWrapperError::DeserializationError(error)
    }
}

impl From<std::string::FromUtf8Error> for HelmWrapperError {
    fn from(error: std::string::FromUtf8Error) -> (wrapped: Self) {
        HelmWrapperError::NonUtf8Error(error)
    }
}

impl vstd::std_specs::convert::FromSpecImpl<std::string::FromUtf8Error> for HelmWrapperError {
    open spec fn obeys_from_spec() -> bool {
        true
    }

    open spec fn from_spec(error: std::string::FromUtf8Error) -> Self {
        HelmWrapperError::NonUtf8Error(error)
    }
}

impl From<std::io::Error> for HelmWrapperError {
    fn from(error: std::io::Error) -> (wrapped: Self) {
        HelmWrapperError::ExecutionError(error)
    }
}

impl vstd::std_specs::convert::FromSpecImpl<std::io::Error> for HelmWrapperError {
    open spec fn obeys_from_spec() -> bool {
        true
    }

    open spec fn from_spec(error: std::io::Error) -> Self {
        HelmWrapperError::ExecutionError(error)
    }
}

} // verus!
