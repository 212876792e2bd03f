//! The kinds of failure that the manager tells apart.

use vstd::prelude::*;
use crate::askpass::AskPassError;
use crate::displayservers::DisplayServerError;
use crate::displayservers::x::XError;

verus! {

/// Why an operation of the manager failed. Only `AuthenticationError` sends
/// the user back to the prompt; a display failure ends one session; every
/// other kind ends the manager.
#[derive(Debug, Clone, Copy, PartialEq, Eq, Structural)]
pub enum ErrorKind {
    InhibitationError,
    IoError,
    AuthenticationError,
    DBusError,
    SessionError,
    ForkFailed,
    /// The configuration could not be read; the parser's report stays with
    /// the caller.
    ConfigLoadError,
    AskPassError(AskPassError),
    XError(XError),
}

impl ErrorKind {
    /// Whether the login prompt is simply shown again after this failure.
    pub open spec fn is_retryable(self) -> bool {
        self == ErrorKind::AuthenticationError
    }

    /// Whether this failure ended a session but leaves the manager running.
    pub open spec fn is_display_failure(self) -> bool {
        self is XError
    }

    /// Whether the login prompt is simply shown again after this failure.
    pub fn retryable(&self) -> (r: bool)
        ensures
            r == self.is_retryable(),
    {
        match self {
            ErrorKind::AuthenticationError => true,
            _ => false,
        }
    }
}

impl From<DisplayServerError> for ErrorKind {
    fn from(error: DisplayServerError) -> (r: Self) {
        match error {
            DisplayServerError::XError(e) => ErrorKind::XError(e),
        }
    }
}

impl vstd::std_specs::convert::FromSpecImpl<DisplayServerError> for ErrorKind {
    open spec fn obeys_from_spec() -> bool {
        true
    }

    open spec fn from_spec(error: DisplayServerError) -> Self {
        match error {
            DisplayServerError::XError(e) => ErrorKind::XError(e),
        }
    }
}

} // verus!
