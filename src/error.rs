//! The ways one exchange with the backend can fail, and the HTTP status each
//! one is reported with.
use vstd::prelude::*;
use crate::frame::FrameError;

verus! {

#[derive(Debug, Clone, PartialEq, Eq)]
pub enum BridgeError {
    /// The backend's socket is not there; no connection was attempted.
    BackendUnavailable,
    /// A new connection to the backend could not be established.
    ConnectError,
    /// Reading or writing the connection failed.
    IoError,
    /// A frame broke the wire protocol (too large, or not UTF-8 text).
    ProtocolError(FrameError),
    /// The backend answered with `success: false`.
    BackendReportedFailure(String),
    /// The backend declared a status outside the range of HTTP status codes.
    InvalidStatusCode(u16),
}

/// Service unavailable: the backend could not be reached or spoke garbage.
pub const STATUS_SERVICE_UNAVAILABLE: u16 = 503;

/// Internal server error: the backend reported a failure.
pub const STATUS_INTERNAL_SERVER_ERROR: u16 = 500;

impl BridgeError {
    /// Connection- and protocol-level failures are 503-class; failures the
    /// backend itself reported, or caused by what it declared, are 500-class.
    pub open spec fn spec_http_status(&self) -> u16 {
        match self {
            BridgeError::BackendUnavailable | BridgeError::ConnectError | BridgeError::IoError
            | BridgeError::ProtocolError(_) => STATUS_SERVICE_UNAVAILABLE,
            BridgeError::BackendReportedFailure(_) | BridgeError::InvalidStatusCode(_) => STATUS_INTERNAL_SERVER_ERROR,
        }
    }

    pub fn http_status(&self) -> (r: u16)
        ensures
            r == self.spec_http_status(),
    {
        match self {
            BridgeError::BackendUnavailable | BridgeError::ConnectError | BridgeError::IoError
            | BridgeError::ProtocolError(_) => STATUS_SERVICE_UNAVAILABLE,
            BridgeError::BackendReportedFailure(_) | BridgeError::InvalidStatusCode(_) => STATUS_INTERNAL_SERVER_ERROR,
        }
    }
}

} // verus!
