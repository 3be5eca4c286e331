//! The failures that the daemon reports, their sentences and their HTTP
//! status.

use crate::model::Text;
use crate::text::join2;
use crate::version_control::error::{Refusal, VersionControlError, CONFLICT};
use vstd::prelude::*;
use vstd::std_specs::convert::FromSpecImpl;

verus! {

/// The HTTP status of a request for something that is not there.
pub const NOT_FOUND: u16 = 404;

/// The HTTP status of a failure of the daemon itself.
pub const INTERNAL_SERVER_ERROR: u16 = 500;

/// What the operating system said of a failed read, write, copy or removal:
/// that the path was not there, or something else, with its description.
#[derive(Debug, PartialEq, Eq)]
pub enum IoFailure {
    NotFound,
    Other(String),
}

/// A failure of a request. The variants that come from outside the engine
/// carry the description that their source gave.
#[derive(Debug, PartialEq, Eq)]
pub enum DaemonError {
    Io(String),
    Serialization(String),
    Cache(String),
    MultipartError(String),
    ParseError(String),
    NotFound,
    AlreadyExists,
    NotImplemented,
    VersionControlError(VersionControlError),
}

/// A failure with its descriptions as characters.
pub enum Failure {
    Io(Text),
    Serialization(Text),
    Cache(Text),
    MultipartError(Text),
    ParseError(Text),
    NotFound,
    AlreadyExists,
    NotImplemented,
    VersionControlError(Refusal),
}

impl View for DaemonError {
    type V = Failure;

    open spec fn view(&self) -> Failure {
        match self {
            DaemonError::Io(detail) => Failure::Io(detail@),
            DaemonError::Serialization(detail) => Failure::Serialization(detail@),
            DaemonError::Cache(detail) => Failure::Cache(detail@),
            DaemonError::MultipartError(detail) => Failure::MultipartError(detail@),
            DaemonError::ParseError(detail) => Failure::ParseError(detail@),
            DaemonError::NotFound => Failure::NotFound,
            DaemonError::AlreadyExists => Failure::AlreadyExists,
            DaemonError::NotImplemented => Failure::NotImplemented,
            DaemonError::VersionControlError(e) => Failure::VersionControlError(e@),
        }
    }
}

impl Failure {
    /// The sentence shown to a client.
    pub open spec fn message(self) -> Text {
        match self {
            Failure::Io(detail) => "IO error: "@ + detail,
            Failure::Serialization(detail) => "Serialization error: "@ + detail,
            Failure::Cache(detail) => "Cache error: "@ + detail,
            Failure::MultipartError(detail) => "Multipart error: "@ + detail,
            Failure::ParseError(detail) => "ParseError: "@ + detail,
            Failure::NotFound => "Resource could not be found."@,
            Failure::AlreadyExists => "Resource already exists."@,
            Failure::NotImplemented => "Storage backend is not implemented."@,
            Failure::VersionControlError(refusal) => "Version control error: "@ + refusal.message(),
        }
    }

    /// The HTTP status that answers the failure: 404 for what is not there,
    /// 409 for a name that is taken and for every refusal of the engine, 500
    /// for all else.
    pub open spec fn status_code(self) -> u16 {
        match self {
            Failure::NotFound => NOT_FOUND,
            Failure::AlreadyExists => CONFLICT,
            Failure::VersionControlError(_) => CONFLICT,
            _ => INTERNAL_SERVER_ERROR,
        }
    }
}

impl DaemonError {
    /// The sentence shown to a client.
    pub fn message(&self) -> (text: String)
        ensures
            text@ == self@.message(),
    {
        match self {
            DaemonError::Io(detail) => join2("IO error: ", detail.as_str()),
            DaemonError::Serialization(detail) => join2("Serialization error: ", detail.as_str()),
            DaemonError::Cache(detail) => join2("Cache error: ", detail.as_str()),
            DaemonError::MultipartError(detail) => join2("Multipart error: ", detail.as_str()),
            DaemonError::ParseError(detail) => join2("ParseError: ", detail.as_str()),
            DaemonError::NotFound => "Resource could not be found.".to_owned(),
            DaemonError::AlreadyExists => "Resource already exists.".to_owned(),
            DaemonError::NotImplemented => "Storage backend is not implemented.".to_owned(),
            DaemonError::VersionControlError(e) => {
                let inner = e.message();
                join2("Version control error: ", inner.as_str())
            },
        }
    }

    /// The HTTP status that answers the failure.
    pub fn status_code(&self) -> (code: u16)
        ensures
            code == self@.status_code(),
    {
        match self {
            DaemonError::NotFound => NOT_FOUND,
            DaemonError::AlreadyExists => CONFLICT,
            DaemonError::VersionControlError(_) => CONFLICT,
            _ => INTERNAL_SERVER_ERROR,
        }
    }
}

impl From<IoFailure> for DaemonError {
    /// A path that was not there is reported as such; any other failure keeps
    /// its description.
    fn from(failure: IoFailure) -> (error: DaemonError) {
        match failure {
            IoFailure::NotFound => DaemonError::NotFound,
            IoFailure::Other(detail) => DaemonError::Io(detail),
        }
    }
}

impl FromSpecImpl<IoFailure> for DaemonError {
    open spec fn obeys_from_spec() -> bool {
        true
    }

    open spec fn from_spec(failure: IoFailure) -> DaemonError {
        match failure {
            IoFailure::NotFound => DaemonError::NotFound,
            IoFailure::Other(detail) => DaemonError::Io(detail),
        }
    }
}

impl From<VersionControlError> for DaemonError {
    fn from(refusal: VersionControlError) -> (error: DaemonError) {
        DaemonError::VersionControlError(refusal)
    }
}

impl FromSpecImpl<VersionControlError> for DaemonError {
    open spec fn obeys_from_spec() -> bool {
        true
    }

    open spec fn from_spec(refusal: VersionControlError) -> DaemonError {
        DaemonError::VersionControlError(refusal)
    }
}

} // verus!
