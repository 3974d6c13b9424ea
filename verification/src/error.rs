//! Error taxonomy of the clipboard monitor.
//!
//! Fatal initialization failures are reported synchronously from listener
//! construction; monitor failures end an observer permanently; read errors
//! and an unresolvable format are surfaced once per cycle. Soft outcomes
//! (empty content, content beyond the size limit) never reach subscribers
//! and are carried internally by [`ErrorWrapper`].

use vstd::prelude::*;

use crate::body::Body;

verus! {

/// The native provider could not attach to the clipboard subsystem.
/// Returned synchronously from listener construction; no thread is left
/// running when it is reported.
#[derive(Clone, Debug, PartialEq, Eq, Hash)]
pub struct InitializationError(pub String);

/// Errors that can occur while monitoring or reading the clipboard.
#[derive(Clone, Debug, PartialEq, Eq, Hash)]
#[non_exhaustive]
pub enum ClipboardError {
    /// The change-notification mechanism itself failed. Fatal to the
    /// observer that reports it: published once, then the loop exits.
    MonitorFailed(String),
    /// A specific format could not be transferred. Local to one cycle.
    ReadError(String),
    /// The clipboard held content but none of the known content kinds
    /// could be resolved.
    NoMatchingFormat,
}

/// Mathematical model of a [`ClipboardError`].
pub enum ErrorModel {
    MonitorFailed(Seq<char>),
    ReadError(Seq<char>),
    NoMatchingFormat,
}

impl View for ClipboardError {
    type V = ErrorModel;

    open spec fn view(&self) -> ErrorModel {
        match self {
            ClipboardError::MonitorFailed(s) => ErrorModel::MonitorFailed(s@),
            ClipboardError::ReadError(s) => ErrorModel::ReadError(s@),
            ClipboardError::NoMatchingFormat => ErrorModel::NoMatchingFormat,
        }
    }
}

/// Internal outcome of one attempted format read. The soft cases end the
/// attempt without producing a subscriber-visible event.
#[derive(Debug, PartialEq, Eq)]
pub enum ErrorWrapper {
    /// The format reported size zero: treated as effectively absent.
    EmptyContent,
    /// The reported size exceeds the configured limit.
    SizeTooLarge,
    /// The format vanished between enumeration and the size query.
    FormatUnavailable,
    /// A real transfer failure, surfaced to subscribers for this cycle.
    ReadError(ClipboardError),
}

impl core::convert::From<ClipboardError> for ErrorWrapper {
    fn from(value: ClipboardError) -> (r: ErrorWrapper) {
        ErrorWrapper::ReadError(value)
    }
}

impl vstd::std_specs::convert::FromSpecImpl<ClipboardError> for ErrorWrapper {
    open spec fn obeys_from_spec() -> bool {
        true
    }

    open spec fn from_spec(value: ClipboardError) -> ErrorWrapper {
        ErrorWrapper::ReadError(value)
    }
}

/// The unit flowing through the fan-out: one resolved body, shared without
/// copying, or the error of that cycle.
pub type ClipboardResult = Result<std::sync::Arc<Body>, ClipboardError>;

/// Builds the read-error wrapper from a diagnostic message.
pub fn to_read_error(message: String) -> (r: ErrorWrapper)
    ensures
        r == ErrorWrapper::ReadError(ClipboardError::ReadError(message)),
{
    ErrorWrapper::ReadError(ClipboardError::ReadError(message))
}

} // verus!
