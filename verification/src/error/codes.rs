//! FFI-compatible error codes: the unified error taxonomy of the platform.

use vstd::prelude::*;
use crate::text::{format_hex_padded, hex, zero_padded};

verus! {

/// Laplace error codes for the FFI boundary, grouped by thousands: internal (1000s),
/// timeouts (2000s), resources (3000s), validation (4000s), network (5000s) and
/// domain-specific errors (6000s), with 0 for success.
#[derive(Debug, Clone, Copy, PartialEq, Eq, Structural)]
pub enum LaplaceError {
    /// Successful operation (0).
    Success,
    /// Generic internal error (1000); also the code for unknown codes.
    Internal,
    /// Context is missing or invalid (1001).
    InvalidContext,
    /// ABI version mismatch (1002).
    AbiMismatch,
    /// Memory layout or alignment violation (1003).
    MemoryAlignment,
    /// Pointer validation failed (1004).
    InvalidPointer,
    /// Operation exceeded its deadline (2000).
    Timeout,
    /// Kernel operation timeout (2001).
    KernelTimeout,
    /// SDK operation timeout (2002).
    SdkTimeout,
    /// Lock acquisition timeout (2003).
    LockTimeout,
    /// Resource quota exceeded (3000).
    QuotaExceeded,
    /// Memory allocation failed (3001).
    OutOfMemory,
    /// CPU credit exhausted (3002).
    CpuQuotaExceeded,
    /// Concurrent request limit reached (3003).
    ConcurrencyLimitExceeded,
    /// Connection pool exhausted (3004).
    PoolExhausted,
    /// Handshake failed (4000).
    HandshakeFailed,
    /// Invalid request format or schema (4001).
    InvalidRequest,
    /// Unsupported operation version (4002).
    VersionMismatch,
    /// Tenant not found or inactive (4003).
    TenantNotFound,
    /// Authorization check failed (4004).
    Unauthorized,
    /// Network communication failure (5000).
    NetworkError,
    /// Connection refused or reset (5001).
    ConnectionFailed,
    /// Serialization or deserialization failed (5002).
    SerializationError,
    /// Formal verification error (6000).
    VerificationError,
    /// Isolate pool error (6001).
    IsolatePoolError,
    /// Scheduler error (6002).
    SchedulerError,
}

impl LaplaceError {
    /// The numeric code of an error.
    pub open spec fn spec_code(self) -> u32 {
        match self {
            LaplaceError::Success => 0,
            LaplaceError::Internal => 1000,
            LaplaceError::InvalidContext => 1001,
            LaplaceError::AbiMismatch => 1002,
            LaplaceError::MemoryAlignment => 1003,
            LaplaceError::InvalidPointer => 1004,
            LaplaceError::Timeout => 2000,
            LaplaceError::KernelTimeout => 2001,
            LaplaceError::SdkTimeout => 2002,
            LaplaceError::LockTimeout => 2003,
            LaplaceError::QuotaExceeded => 3000,
            LaplaceError::OutOfMemory => 3001,
            LaplaceError::CpuQuotaExceeded => 3002,
            LaplaceError::ConcurrencyLimitExceeded => 3003,
            LaplaceError::PoolExhausted => 3004,
            LaplaceError::HandshakeFailed => 4000,
            LaplaceError::InvalidRequest => 4001,
            LaplaceError::VersionMismatch => 4002,
            LaplaceError::TenantNotFound => 4003,
            LaplaceError::Unauthorized => 4004,
            LaplaceError::NetworkError => 5000,
            LaplaceError::ConnectionFailed => 5001,
            LaplaceError::SerializationError => 5002,
            LaplaceError::VerificationError => 6000,
            LaplaceError::IsolatePoolError => 6001,
            LaplaceError::SchedulerError => 6002,
        }
    }

    /// The error with numeric code `code`; unknown codes are `Internal`.
    pub open spec fn with_code(code: u32) -> LaplaceError {
        if code == 0 {
            LaplaceError::Success
        } else if code == 1000 {
            LaplaceError::Internal
        } else if code == 1001 {
            LaplaceError::InvalidContext
        } else if code == 1002 {
            LaplaceError::AbiMismatch
        } else if code == 1003 {
            LaplaceError::MemoryAlignment
        } else if code == 1004 {
            LaplaceError::InvalidPointer
        } else if code == 2000 {
            LaplaceError::Timeout
        } else if code == 2001 {
            LaplaceError::KernelTimeout
        } else if code == 2002 {
            LaplaceError::SdkTimeout
        } else if code == 2003 {
            LaplaceError::LockTimeout
        } else if code == 3000 {
            LaplaceError::QuotaExceeded
        } else if code == 3001 {
            LaplaceError::OutOfMemory
        } else if code == 3002 {
            LaplaceError::CpuQuotaExceeded
        } else if code == 3003 {
            LaplaceError::ConcurrencyLimitExceeded
        } else if code == 3004 {
            LaplaceError::PoolExhausted
        } else if code == 4000 {
            LaplaceError::HandshakeFailed
        } else if code == 4001 {
            LaplaceError::InvalidRequest
        } else if code == 4002 {
            LaplaceError::VersionMismatch
        } else if code == 4003 {
            LaplaceError::TenantNotFound
        } else if code == 4004 {
            LaplaceError::Unauthorized
        } else if code == 5000 {
            LaplaceError::NetworkError
        } else if code == 5001 {
            LaplaceError::ConnectionFailed
        } else if code == 5002 {
            LaplaceError::SerializationError
        } else if code == 6000 {
            LaplaceError::VerificationError
        } else if code == 6001 {
            LaplaceError::IsolatePoolError
        } else if code == 6002 {
            LaplaceError::SchedulerError
        } else {
            LaplaceError::Internal
        }
    }

    /// The message of an error.
    pub open spec fn spec_message(self) -> Seq<char> {
        match self {
            LaplaceError::Success => "Success"@,
            LaplaceError::Internal => "Internal error"@,
            LaplaceError::InvalidContext => "Invalid context"@,
            LaplaceError::AbiMismatch => "ABI version mismatch"@,
            LaplaceError::MemoryAlignment => "Memory alignment violation"@,
            LaplaceError::InvalidPointer => "Invalid pointer"@,
            LaplaceError::Timeout => "Operation timeout"@,
            LaplaceError::KernelTimeout => "Kernel operation timeout"@,
            LaplaceError::SdkTimeout => "SDK operation timeout"@,
            LaplaceError::LockTimeout => "Lock acquisition timeout"@,
            LaplaceError::QuotaExceeded => "Resource quota exceeded"@,
            LaplaceError::OutOfMemory => "Out of memory"@,
            LaplaceError::CpuQuotaExceeded => "CPU quota exceeded"@,
            LaplaceError::ConcurrencyLimitExceeded => "Concurrency limit exceeded"@,
            LaplaceError::PoolExhausted => "Connection pool exhausted"@,
            LaplaceError::HandshakeFailed => "Handshake failed"@,
            LaplaceError::InvalidRequest => "Invalid request"@,
            LaplaceError::VersionMismatch => "Version mismatch"@,
            LaplaceError::TenantNotFound => "Tenant not found"@,
            LaplaceError::Unauthorized => "Unauthorized"@,
            LaplaceError::NetworkError => "Network error"@,
            LaplaceError::ConnectionFailed => "Connection failed"@,
            LaplaceError::SerializationError => "Serialization error"@,
            LaplaceError::VerificationError => "Verification error"@,
            LaplaceError::IsolatePoolError => "Isolate pool error"@,
            LaplaceError::SchedulerError => "Scheduler error"@,
        }
    }

    /// The variant name of an error.
    pub open spec fn variant_name(self) -> Seq<char> {
        match self {
            LaplaceError::Success => "Success"@,
            LaplaceError::Internal => "Internal"@,
            LaplaceError::InvalidContext => "InvalidContext"@,
            LaplaceError::AbiMismatch => "AbiMismatch"@,
            LaplaceError::MemoryAlignment => "MemoryAlignment"@,
            LaplaceError::InvalidPointer => "InvalidPointer"@,
            LaplaceError::Timeout => "Timeout"@,
            LaplaceError::KernelTimeout => "KernelTimeout"@,
            LaplaceError::SdkTimeout => "SdkTimeout"@,
            LaplaceError::LockTimeout => "LockTimeout"@,
            LaplaceError::QuotaExceeded => "QuotaExceeded"@,
            LaplaceError::OutOfMemory => "OutOfMemory"@,
            LaplaceError::CpuQuotaExceeded => "CpuQuotaExceeded"@,
            LaplaceError::ConcurrencyLimitExceeded => "ConcurrencyLimitExceeded"@,
            LaplaceError::PoolExhausted => "PoolExhausted"@,
            LaplaceError::HandshakeFailed => "HandshakeFailed"@,
            LaplaceError::InvalidRequest => "InvalidRequest"@,
            LaplaceError::VersionMismatch => "VersionMismatch"@,
            LaplaceError::TenantNotFound => "TenantNotFound"@,
            LaplaceError::Unauthorized => "Unauthorized"@,
            LaplaceError::NetworkError => "NetworkError"@,
            LaplaceError::ConnectionFailed => "ConnectionFailed"@,
            LaplaceError::SerializationError => "SerializationError"@,
            LaplaceError::VerificationError => "VerificationError"@,
            LaplaceError::IsolatePoolError => "IsolatePoolError"@,
            LaplaceError::SchedulerError => "SchedulerError"@,
        }
    }

    /// Transient errors worth retrying with backoff: timeouts, network failures and an
    /// exhausted pool.
    pub open spec fn retryable(self) -> bool {
        match self {
            LaplaceError::Timeout | LaplaceError::KernelTimeout | LaplaceError::SdkTimeout
            | LaplaceError::LockTimeout | LaplaceError::NetworkError
            | LaplaceError::ConnectionFailed | LaplaceError::PoolExhausted => true,
            _ => false,
        }
    }

    /// Errors of resource exhaustion: the codes of the 3000s.
    pub open spec fn resource(self) -> bool {
        match self {
            LaplaceError::QuotaExceeded | LaplaceError::OutOfMemory
            | LaplaceError::CpuQuotaExceeded | LaplaceError::ConcurrencyLimitExceeded
            | LaplaceError::PoolExhausted => true,
            _ => false,
        }
    }

    /// The error as displayed: `LaplaceError::<variant> (0x<code, 4+ hex digits>): <message>`.
    pub open spec fn display(self) -> Seq<char> {
        "LaplaceError::"@ + self.variant_name() + " (0x"@ + zero_padded(hex(self.spec_code() as nat), 4)
            + "): "@ + self.spec_message()
    }

    /// The error for `code`; unknown codes map to `Internal` for forward compatibility.
    pub fn from_code(code: u32) -> (r: LaplaceError)
        ensures
            r == LaplaceError::with_code(code),
    {
        match code {
            0 => LaplaceError::Success,
            1000 => LaplaceError::Internal,
            1001 => LaplaceError::InvalidContext,
            1002 => LaplaceError::AbiMismatch,
            1003 => LaplaceError::MemoryAlignment,
            1004 => LaplaceError::InvalidPointer,
            2000 => LaplaceError::Timeout,
            2001 => LaplaceError::KernelTimeout,
            2002 => LaplaceError::SdkTimeout,
            2003 => LaplaceError::LockTimeout,
            3000 => LaplaceError::QuotaExceeded,
            3001 => LaplaceError::OutOfMemory,
            3002 => LaplaceError::CpuQuotaExceeded,
            3003 => LaplaceError::ConcurrencyLimitExceeded,
            3004 => LaplaceError::PoolExhausted,
            4000 => LaplaceError::HandshakeFailed,
            4001 => LaplaceError::InvalidRequest,
            4002 => LaplaceError::VersionMismatch,
            4003 => LaplaceError::TenantNotFound,
            4004 => LaplaceError::Unauthorized,
            5000 => LaplaceError::NetworkError,
            5001 => LaplaceError::ConnectionFailed,
            5002 => LaplaceError::SerializationError,
            6000 => LaplaceError::VerificationError,
            6001 => LaplaceError::IsolatePoolError,
            6002 => LaplaceError::SchedulerError,
            _ => LaplaceError::Internal,
        }
    }

    /// The numeric code of this error.
    pub fn code(&self) -> (r: u32)
        ensures
            r == self.spec_code(),
    {
        match self {
            LaplaceError::Success => 0,
            LaplaceError::Internal => 1000,
            LaplaceError::InvalidContext => 1001,
            LaplaceError::AbiMismatch => 1002,
            LaplaceError::MemoryAlignment => 1003,
            LaplaceError::InvalidPointer => 1004,
            LaplaceError::Timeout => 2000,
            LaplaceError::KernelTimeout => 2001,
            LaplaceError::SdkTimeout => 2002,
            LaplaceError::LockTimeout => 2003,
            LaplaceError::QuotaExceeded => 3000,
            LaplaceError::OutOfMemory => 3001,
            LaplaceError::CpuQuotaExceeded => 3002,
            LaplaceError::ConcurrencyLimitExceeded => 3003,
            LaplaceError::PoolExhausted => 3004,
            LaplaceError::HandshakeFailed => 4000,
            LaplaceError::InvalidRequest => 4001,
            LaplaceError::VersionMismatch => 4002,
            LaplaceError::TenantNotFound => 4003,
            LaplaceError::Unauthorized => 4004,
            LaplaceError::NetworkError => 5000,
            LaplaceError::ConnectionFailed => 5001,
            LaplaceError::SerializationError => 5002,
            LaplaceError::VerificationError => 6000,
            LaplaceError::IsolatePoolError => 6001,
            LaplaceError::SchedulerError => 6002,
        }
    }

    /// The human-readable message of this error.
    pub fn message(&self) -> (r: &'static str)
        ensures
            r@ == self.spec_message(),
    {
        match self {
            LaplaceError::Success => "Success",
            LaplaceError::Internal => "Internal error",
            LaplaceError::InvalidContext => "Invalid context",
            LaplaceError::AbiMismatch => "ABI version mismatch",
            LaplaceError::MemoryAlignment => "Memory alignment violation",
            LaplaceError::InvalidPointer => "Invalid pointer",
            LaplaceError::Timeout => "Operation timeout",
            LaplaceError::KernelTimeout => "Kernel operation timeout",
            LaplaceError::SdkTimeout => "SDK operation timeout",
            LaplaceError::LockTimeout => "Lock acquisition timeout",
            LaplaceError::QuotaExceeded => "Resource quota exceeded",
            LaplaceError::OutOfMemory => "Out of memory",
            LaplaceError::CpuQuotaExceeded => "CPU quota exceeded",
            LaplaceError::ConcurrencyLimitExceeded => "Concurrency limit exceeded",
            LaplaceError::PoolExhausted => "Connection pool exhausted",
            LaplaceError::HandshakeFailed => "Handshake failed",
            LaplaceError::InvalidRequest => "Invalid request",
            LaplaceError::VersionMismatch => "Version mismatch",
            LaplaceError::TenantNotFound => "Tenant not found",
            LaplaceError::Unauthorized => "Unauthorized",
            LaplaceError::NetworkError => "Network error",
            LaplaceError::ConnectionFailed => "Connection failed",
            LaplaceError::SerializationError => "Serialization error",
            LaplaceError::VerificationError => "Verification error",
            LaplaceError::IsolatePoolError => "Isolate pool error",
            LaplaceError::SchedulerError => "Scheduler error",
        }
    }

    /// The variant name of this error.
    pub fn name(&self) -> (r: &'static str)
        ensures
            r@ == self.variant_name(),
    {
        match self {
            LaplaceError::Success => "Success",
            LaplaceError::Internal => "Internal",
            LaplaceError::InvalidContext => "InvalidContext",
            LaplaceError::AbiMismatch => "AbiMismatch",
            LaplaceError::MemoryAlignment => "MemoryAlignment",
            LaplaceError::InvalidPointer => "InvalidPointer",
            LaplaceError::Timeout => "Timeout",
            LaplaceError::KernelTimeout => "KernelTimeout",
            LaplaceError::SdkTimeout => "SdkTimeout",
            LaplaceError::LockTimeout => "LockTimeout",
            LaplaceError::QuotaExceeded => "QuotaExceeded",
            LaplaceError::OutOfMemory => "OutOfMemory",
            LaplaceError::CpuQuotaExceeded => "CpuQuotaExceeded",
            LaplaceError::ConcurrencyLimitExceeded => "ConcurrencyLimitExceeded",
            LaplaceError::PoolExhausted => "PoolExhausted",
            LaplaceError::HandshakeFailed => "HandshakeFailed",
            LaplaceError::InvalidRequest => "InvalidRequest",
            LaplaceError::VersionMismatch => "VersionMismatch",
            LaplaceError::TenantNotFound => "TenantNotFound",
            LaplaceError::Unauthorized => "Unauthorized",
            LaplaceError::NetworkError => "NetworkError",
            LaplaceError::ConnectionFailed => "ConnectionFailed",
            LaplaceError::SerializationError => "SerializationError",
            LaplaceError::VerificationError => "VerificationError",
            LaplaceError::IsolatePoolError => "IsolatePoolError",
            LaplaceError::SchedulerError => "SchedulerError",
        }
    }

    /// Whether this error is transient and worth retrying.
    pub fn is_retryable(&self) -> (r: bool)
        ensures
            r == self.retryable(),
    {
        match self {
            LaplaceError::Timeout | LaplaceError::KernelTimeout | LaplaceError::SdkTimeout
            | LaplaceError::LockTimeout | LaplaceError::NetworkError
            | LaplaceError::ConnectionFailed | LaplaceError::PoolExhausted => true,
            _ => false,
        }
    }

    /// Whether this error indicates resource exhaustion.
    pub fn is_resource_error(&self) -> (r: bool)
        ensures
            r == self.resource(),
    {
        match self {
            LaplaceError::QuotaExceeded | LaplaceError::OutOfMemory
            | LaplaceError::CpuQuotaExceeded | LaplaceError::ConcurrencyLimitExceeded
            | LaplaceError::PoolExhausted => true,
            _ => false,
        }
    }

    /// Renders the error.
    pub fn to_display_string(&self) -> (r: String)
        ensures
            r@ == self.display(),
    {
        String::from_str("LaplaceError::")
            .concat(self.name())
            .concat(" (0x")
            .concat(format_hex_padded(self.code() as u64, 4).as_str())
            .concat("): ")
            .concat(self.message())
    }
}

/// Result carrying a `LaplaceError` on failure.
pub type LaplaceResult<T> = Result<T, LaplaceError>;

/// Every error survives the round trip through its code, distinct errors have distinct
/// codes, and a code that no error has maps to `Internal`.
pub proof fn error_code_roundtrip(e: LaplaceError, f: LaplaceError, code: u32)
    ensures
        LaplaceError::with_code(e.spec_code()) == e,
        e != f ==> e.spec_code() != f.spec_code(),
        (forall|g: LaplaceError| g.spec_code() != code) ==> LaplaceError::with_code(code)
            == LaplaceError::Internal,
{
    if forall|g: LaplaceError| g.spec_code() != code {

        assert(LaplaceError::Success.spec_code() != code);
        assert(LaplaceError::Internal.spec_code() != code);
        assert(LaplaceError::InvalidContext.spec_code() != code);
        assert(LaplaceError::AbiMismatch.spec_code() != code);
        assert(LaplaceError::MemoryAlignment.spec_code() != code);
        assert(LaplaceError::InvalidPointer.spec_code() != code);
        assert(LaplaceError::Timeout.spec_code() != code);
        assert(LaplaceError::KernelTimeout.spec_code() != code);
        assert(LaplaceError::SdkTimeout.spec_code() != code);
        assert(LaplaceError::LockTimeout.spec_code() != code);
        assert(LaplaceError::QuotaExceeded.spec_code() != code);
        assert(LaplaceError::OutOfMemory.spec_code() != code);
        assert(LaplaceError::CpuQuotaExceeded.spec_code() != code);
        assert(LaplaceError::ConcurrencyLimitExceeded.spec_code() != code);
        assert(LaplaceError::PoolExhausted.spec_code() != code);
        assert(LaplaceError::HandshakeFailed.spec_code() != code);
        assert(LaplaceError::InvalidRequest.spec_code() != code);
        assert(LaplaceError::VersionMismatch.spec_code() != code);
        assert(LaplaceError::TenantNotFound.spec_code() != code);
        assert(LaplaceError::Unauthorized.spec_code() != code);
        assert(LaplaceError::NetworkError.spec_code() != code);
        assert(LaplaceError::ConnectionFailed.spec_code() != code);
        assert(LaplaceError::SerializationError.spec_code() != code);
        assert(LaplaceError::VerificationError.spec_code() != code);
        assert(LaplaceError::IsolatePoolError.spec_code() != code);
        assert(LaplaceError::SchedulerError.spec_code() != code);
    }
}

/// Resource errors are exactly the codes of the 3000s, and every message is non-empty.
pub proof fn error_classes(e: LaplaceError)
    ensures
        e.resource() <==> 3000 <= e.spec_code() < 4000,
        e.spec_message().len() > 0,
{
    reveal_strlit("Success");

    reveal_strlit("Internal error");
    reveal_strlit("Invalid context");
    reveal_strlit("ABI version mismatch");
    reveal_strlit("Memory alignment violation");
    reveal_strlit("Invalid pointer");
    reveal_strlit("Operation timeout");
    reveal_strlit("Kernel operation timeout");
    reveal_strlit("SDK operation timeout");
    reveal_strlit("Lock acquisition timeout");
    reveal_strlit("Resource quota exceeded");
    reveal_strlit("Out of memory");
    reveal_strlit("CPU quota exceeded");
    reveal_strlit("Concurrency limit exceeded");
    reveal_strlit("Connection pool exhausted");
    reveal_strlit("Handshake failed");
    reveal_strlit("Invalid request");
    reveal_strlit("Version mismatch");
    reveal_strlit("Tenant not found");
    reveal_strlit("Unauthorized");
    reveal_strlit("Network error");
    reveal_strlit("Connection failed");
    reveal_strlit("Serialization error");
    reveal_strlit("Verification error");
    reveal_strlit("Isolate pool error");
    reveal_strlit("Scheduler error");
}

/// A fingerprint of a message: its length, first character, and ninth character (the
/// first again when the message is shorter).
spec fn message_key(m: Seq<char>) -> (nat, char, char) {
    (m.len(), m[0], if m.len() > 8 { m[8] } else { m[0] })
}

/// The error whose message has fingerprint `k` (`Internal` for any other fingerprint).
spec fn error_with_key(k: (nat, char, char)) -> LaplaceError {
    if k == (7nat, 'S', 'S') {
        LaplaceError::Success
    } else if k == (14nat, 'I', ' ') {
        LaplaceError::Internal
    } else if k == (15nat, 'I', 'c') {
        LaplaceError::InvalidContext
    } else if k == (20nat, 'A', 'i') {
        LaplaceError::AbiMismatch
    } else if k == (26nat, 'M', 'l') {
        LaplaceError::MemoryAlignment
    } else if k == (15nat, 'I', 'p') {
        LaplaceError::InvalidPointer
    } else if k == (17nat, 'O', 'n') {
        LaplaceError::Timeout
    } else if k == (24nat, 'K', 'p') {
        LaplaceError::KernelTimeout
    } else if k == (21nat, 'S', 'a') {
        LaplaceError::SdkTimeout
    } else if k == (24nat, 'L', 'u') {
        LaplaceError::LockTimeout
    } else if k == (23nat, 'R', ' ') {
        LaplaceError::QuotaExceeded
    } else if k == (13nat, 'O', 'e') {
        LaplaceError::OutOfMemory
    } else if k == (18nat, 'C', 'a') {
        LaplaceError::CpuQuotaExceeded
    } else if k == (26nat, 'C', 'n') {
        LaplaceError::ConcurrencyLimitExceeded
    } else if k == (25nat, 'C', 'o') {
        LaplaceError::PoolExhausted
    } else if k == (16nat, 'H', 'e') {
        LaplaceError::HandshakeFailed
    } else if k == (15nat, 'I', 'r') {
        LaplaceError::InvalidRequest
    } else if k == (16nat, 'V', 'm') {
        LaplaceError::VersionMismatch
    } else if k == (16nat, 'T', 'o') {
        LaplaceError::TenantNotFound
    } else if k == (12nat, 'U', 'i') {
        LaplaceError::Unauthorized
    } else if k == (13nat, 'N', 'e') {
        LaplaceError::NetworkError
    } else if k == (17nat, 'C', 'o') {
        LaplaceError::ConnectionFailed
    } else if k == (19nat, 'S', 'a') {
        LaplaceError::SerializationError
    } else if k == (18nat, 'V', 't') {
        LaplaceError::VerificationError
    } else if k == (18nat, 'I', 'p') {
        LaplaceError::IsolatePoolError
    } else if k == (15nat, 'S', 'r') {
        LaplaceError::SchedulerError
    } else {
        LaplaceError::Internal
    }
}

proof fn lemma_message_key(e: LaplaceError)
    ensures
        error_with_key(message_key(e.spec_message())) == e,
        e.spec_message().len() > 0,
{
    match e {
        LaplaceError::Success => {
            reveal_strlit("Success");
        },
        LaplaceError::Internal => {
            reveal_strlit("Internal error");
        },
        LaplaceError::InvalidContext => {
            reveal_strlit("Invalid context");
        },
        LaplaceError::AbiMismatch => {
            reveal_strlit("ABI version mismatch");
        },
        LaplaceError::MemoryAlignment => {
            reveal_strlit("Memory alignment violation");
        },
        LaplaceError::InvalidPointer => {
            reveal_strlit("Invalid pointer");
        },
        LaplaceError::Timeout => {
            reveal_strlit("Operation timeout");
        },
        LaplaceError::KernelTimeout => {
            reveal_strlit("Kernel operation timeout");
        },
        LaplaceError::SdkTimeout => {
            reveal_strlit("SDK operation timeout");
        },
        LaplaceError::LockTimeout => {
            reveal_strlit("Lock acquisition timeout");
        },
        LaplaceError::QuotaExceeded => {
            reveal_strlit("Resource quota exceeded");
        },
        LaplaceError::OutOfMemory => {
            reveal_strlit("Out of memory");
        },
        LaplaceError::CpuQuotaExceeded => {
            reveal_strlit("CPU quota exceeded");
        },
        LaplaceError::ConcurrencyLimitExceeded => {
            reveal_strlit("Concurrency limit exceeded");
        },
        LaplaceError::PoolExhausted => {
            reveal_strlit("Connection pool exhausted");
        },
        LaplaceError::HandshakeFailed => {
            reveal_strlit("Handshake failed");
        },
        LaplaceError::InvalidRequest => {
            reveal_strlit("Invalid request");
        },
        LaplaceError::VersionMismatch => {
            reveal_strlit("Version mismatch");
        },
        LaplaceError::TenantNotFound => {
            reveal_strlit("Tenant not found");
        },
        LaplaceError::Unauthorized => {
            reveal_strlit("Unauthorized");
        },
        LaplaceError::NetworkError => {
            reveal_strlit("Network error");
        },
        LaplaceError::ConnectionFailed => {
            reveal_strlit("Connection failed");
        },
        LaplaceError::SerializationError => {
            reveal_strlit("Serialization error");
        },
        LaplaceError::VerificationError => {
            reveal_strlit("Verification error");
        },
        LaplaceError::IsolatePoolError => {
            reveal_strlit("Isolate pool error");
        },
        LaplaceError::SchedulerError => {
            reveal_strlit("Scheduler error");
        },
    }
}

/// Every error has a non-empty message, and distinct errors have distinct messages.
pub proof fn error_messages_distinct(e: LaplaceError, f: LaplaceError)
    ensures
        e.spec_message().len() > 0,
        e != f ==> e.spec_message() != f.spec_message(),
{
    lemma_message_key(e);
    lemma_message_key(f);
}

} // verus!
