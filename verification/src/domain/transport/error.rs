//! Transport-level errors and their mapping onto the unified error codes.

use vstd::prelude::*;
use crate::error::codes::LaplaceError;

verus! {

/// Connection-level errors returned by transport operations.
#[derive(Debug, Clone, Copy, PartialEq, Eq, Structural)]
pub enum TransportError {
    /// Connection is closed or unreachable; retryable on a new connection.
    ConnectionClosed,
    /// A stream read, write or state transition failed.
    StreamError,
    /// The configuration does not meet its constraints.
    InvalidConfig,
    /// The underlying I/O system failed.
    IoError,
    /// The TLS handshake failed.
    TlsError,
    /// The operation exceeded its time limit.
    Timeout,
}

impl TransportError {
    /// The unified error code of an error: ConnectionFailed (5001), NetworkError (5000),
    /// InvalidRequest (4001), HandshakeFailed (4000) or Timeout (2000).
    pub open spec fn error_code(self) -> u32 {
        match self {
            TransportError::ConnectionClosed => 5001,
            TransportError::StreamError => 5000,
            TransportError::InvalidConfig => 4001,
            TransportError::IoError => 5000,
            TransportError::TlsError => 4000,
            TransportError::Timeout => 2000,
        }
    }

    /// The message of an error.
    pub open spec fn display(self) -> Seq<char> {
        match self {
            TransportError::ConnectionClosed => "Connection closed"@,
            TransportError::StreamError => "Stream error"@,
            TransportError::InvalidConfig => "Invalid configuration"@,
            TransportError::IoError => "I/O error"@,
            TransportError::TlsError => "TLS error"@,
            TransportError::Timeout => "Operation timeout"@,
        }
    }

    /// The unified error code of this error.
    pub fn to_error_code(&self) -> (r: u32)
        ensures
            r == self.error_code(),
    {
        match self {
            TransportError::ConnectionClosed => 5001,
            TransportError::StreamError => 5000,
            TransportError::InvalidConfig => 4001,
            TransportError::IoError => 5000,
            TransportError::TlsError => 4000,
            TransportError::Timeout => 2000,
        }
    }

    /// Renders the error message.
    pub fn to_display_string(&self) -> (r: String)
        ensures
            r@ == self.display(),
    {
        match self {
            TransportError::ConnectionClosed => String::from_str("Connection closed"),
            TransportError::StreamError => String::from_str("Stream error"),
            TransportError::InvalidConfig => String::from_str("Invalid configuration"),
            TransportError::IoError => String::from_str("I/O error"),
            TransportError::TlsError => String::from_str("TLS error"),
            TransportError::Timeout => String::from_str("Operation timeout"),
        }
    }
}

/// Every transport error maps to a defined unified error code, and the retryable
/// transport failures map to retryable codes.
pub proof fn transport_codes_are_laplace_codes(e: TransportError)
    ensures
        LaplaceError::with_code(e.error_code()).spec_code() == e.error_code(),
        LaplaceError::with_code(e.error_code()) != LaplaceError::Internal,
        (e == TransportError::ConnectionClosed || e == TransportError::Timeout
            || e == TransportError::IoError) ==> LaplaceError::with_code(e.error_code()).retryable(),
{
}

} // verus!
