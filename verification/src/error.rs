//! The error kinds a caller can receive. None of them is retried
//! internally; callers decide retry policy.

use vstd::prelude::*;
use crate::parse::ErrItem;

verus! {

/// Why a call failed.
#[derive(Debug)]
pub enum LangFuseTrackerError {
    /// Missing or empty credentials or URL, detected at construction.
    ConfigurationError(String),
    /// The request could not be delivered: connection, DNS or timeout
    /// trouble. The text describes the transport failure.
    TransportError(String),
    /// The service answered with a status outside the success range.
    /// The message carries the response body for diagnostics.
    ApiError { status_code: u16, message: Vec<u8> },
    /// The service accepted the request but reported per-item
    /// failures; the whole call is reported as failed.
    PartialBatchError { errors: Vec<ErrItem> },
    /// The response body could not be parsed as JSON.
    SerializationError,
    /// A timestamp could not be rendered.
    InvalidTimestampFormat,
    /// Anything else, described in text.
    Unknown(String),
}

impl LangFuseTrackerError {
    /// Wraps a plain description.
    pub fn unknown(error: String) -> (r: Self)
        ensures
            r matches LangFuseTrackerError::Unknown(m) && m@ == error@,
    {
        Self::Unknown(error)
    }
}

} // verus!
