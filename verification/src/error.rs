//! The error taxonomy shared by every component.

use vstd::prelude::*;
use vstd::string::StringExecFns;

verus! {

/// Every failure of this crate, by cause.
#[derive(Debug, Clone)]
pub enum EngineError {
    /// Bad input shape, a size limit exceeded, a disallowed URL, insecure
    /// key-file permissions or a missing credential source.
    Config(String),
    /// A filesystem or stream failure, with the message of the failed operation.
    Io(String),
    /// A failure reported by the wrapped provenance library.
    C2pa(String),
    /// Verification ran and the asset did not pass.
    VerificationFailed,
    /// A capability that this build does not carry.
    Feature(String),
    /// A fault captured at the boundary of the wrapped library.
    Panic(String),
}

pub type EngineResult<T> = Result<T, EngineError>;

/// What an [`EngineError`] holds, as mathematical values.
pub enum ErrorModel {
    Config(Seq<char>),
    Io(Seq<char>),
    C2pa(Seq<char>),
    VerificationFailed,
    Feature(Seq<char>),
    Panic(Seq<char>),
}

impl View for EngineError {
    type V = ErrorModel;

    open spec fn view(&self) -> ErrorModel {
        match self {
            EngineError::Config(m) => ErrorModel::Config(m@),
            EngineError::Io(m) => ErrorModel::Io(m@),
            EngineError::C2pa(m) => ErrorModel::C2pa(m@),
            EngineError::VerificationFailed => ErrorModel::VerificationFailed,
            EngineError::Feature(m) => ErrorModel::Feature(m@),
            EngineError::Panic(m) => ErrorModel::Panic(m@),
        }
    }
}

impl ErrorModel {
    /// The text shown to a user for this error.
    pub open spec fn text(self) -> Seq<char> {
        match self {
            ErrorModel::Config(m) => "Configuration error: "@ + m,
            ErrorModel::Io(m) => "I/O error: "@ + m,
            ErrorModel::C2pa(m) => "C2PA error: "@ + m,
            ErrorModel::VerificationFailed => "Verification failed"@,
            ErrorModel::Feature(m) => "Feature not enabled: "@ + m,
            ErrorModel::Panic(m) => "Internal fault: "@ + m,
        }
    }
}

/// The view of a result whose success carries nothing.
pub open spec fn unit_result_view(r: EngineResult<()>) -> Result<(), ErrorModel> {
    match r {
        Ok(_) => Ok(()),
        Err(e) => Err(e@),
    }
}

impl EngineError {
    /// The text shown to a user: a fixed prefix naming the cause, then the detail.
    pub fn to_string(&self) -> (out: String)
        ensures
            out@ == self@.text(),
    {
        match self {
            EngineError::Config(m) => "Configuration error: ".to_string().concat(m.as_str()),
            EngineError::Io(m) => "I/O error: ".to_string().concat(m.as_str()),
            EngineError::C2pa(m) => "C2PA error: ".to_string().concat(m.as_str()),
            EngineError::VerificationFailed => "Verification failed".to_string(),
            EngineError::Feature(m) => "Feature not enabled: ".to_string().concat(m.as_str()),
            EngineError::Panic(m) => "Internal fault: ".to_string().concat(m.as_str()),
        }
    }

    /// A copy of this error.
    pub fn clone_error(&self) -> (e: EngineError)
        ensures
            e@ == self@,
    {
        match self {
            EngineError::Config(m) => EngineError::Config(m.clone()),
            EngineError::Io(m) => EngineError::Io(m.clone()),
            EngineError::C2pa(m) => EngineError::C2pa(m.clone()),
            EngineError::VerificationFailed => EngineError::VerificationFailed,
            EngineError::Feature(m) => EngineError::Feature(m.clone()),
            EngineError::Panic(m) => EngineError::Panic(m.clone()),
        }
    }

    /// A configuration error with the given detail.
    pub fn config(detail: &str) -> (e: EngineError)
        ensures
            e@ == ErrorModel::Config(detail@),
    {
        EngineError::Config(detail.to_string())
    }
}

} // verus!
