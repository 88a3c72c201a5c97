//! Connection-level errors of the KNUL transport operations.

use vstd::prelude::*;

verus! {

/// Connection-level errors returned by transport operations.
#[derive(Debug, Clone, Copy, PartialEq, Eq, Structural)]
pub enum TransportError {
    /// Connection is closed or unreachable.
    ConnectionClosed,
    /// Stream operation failed.
    StreamError,
    /// Configuration invalid.
    InvalidConfig,
    /// Internal I/O error.
    IoError,
    /// TLS handshake failed.
    TlsError,
    /// Operation timed out.
    Timeout,
}

impl TransportError {
    /// The core error code of an error, 2001 to 2006 in declaration order.
    pub open spec fn error_code(self) -> u32 {
        match self {
            TransportError::ConnectionClosed => 2001,
            TransportError::StreamError => 2002,
            TransportError::InvalidConfig => 2003,
            TransportError::IoError => 2004,
            TransportError::TlsError => 2005,
            TransportError::Timeout => 2006,
        }
    }

    /// The message of an error.
    pub open spec fn display(self) -> Seq<char> {
        match self {
            TransportError::ConnectionClosed => "Connection closed or unreachable"@,
            TransportError::StreamError => "Stream operation failed"@,
            TransportError::InvalidConfig => "Configuration invalid"@,
            TransportError::IoError => "Internal I/O error"@,
            TransportError::TlsError => "TLS handshake failed"@,
            TransportError::Timeout => "Operation timed out"@,
        }
    }

    /// The core error code of this error.
    pub fn to_error_code(&self) -> (r: u32)
        ensures
            r == self.error_code(),
    {
        match self {
            TransportError::ConnectionClosed => 2001,
            TransportError::StreamError => 2002,
            TransportError::InvalidConfig => 2003,
            TransportError::IoError => 2004,
            TransportError::TlsError => 2005,
            TransportError::Timeout => 2006,
        }
    }

    /// Renders the error message.
    pub fn to_display_string(&self) -> (r: String)
        ensures
            r@ == self.display(),
    {
        match self {
            TransportError::ConnectionClosed => String::from_str("Connection closed or unreachable"),
            TransportError::StreamError => String::from_str("Stream operation failed"),
            TransportError::InvalidConfig => String::from_str("Configuration invalid"),
            TransportError::IoError => String::from_str("Internal I/O error"),
            TransportError::TlsError => String::from_str("TLS handshake failed"),
            TransportError::Timeout => String::from_str("Operation timed out"),
        }
    }
}

/// Distinct transport errors have distinct codes.
pub proof fn transport_codes_distinct(a: TransportError, b: TransportError)
    ensures
        a != b ==> a.error_code() != b.error_code(),
{
}

} // verus!
