//! Tenant-level domain errors and their mapping onto protocol codes.

use vstd::prelude::*;
use crate::domain::tenant::TenantTier;
use crate::text::{decimal, format_decimal};

verus! {

/// Tenant-related domain errors: client errors, quota and execution limits, and
/// failures of the turbo shared-memory pool.
#[derive(Debug, Clone)]
pub enum TenantError {
    /// Tenant does not exist or has been deleted.
    NotFound(String),
    /// Tenant is suspended, banned or unpaid.
    Inactive(String),
    /// Malformed tenant identifier.
    InvalidId(String),
    /// Invalid tier change attempt.
    InvalidTierChange { current: TenantTier, requested: TenantTier },
    /// Quota exceeded.
    QuotaExceeded(String),
    /// Semaphore acquisition timeout.
    AcquireTimeout(String),
    /// Execution exceeded its time limit.
    ExecutionTimeout { tenant_id: String, limit_ms: u64, elapsed_ms: u64 },
    /// Runtime error propagated from an adapter.
    RuntimeError(String),
    /// Path access denied.
    PathDenied(String),
    /// All turbo slots are occupied.
    TurboPoolExhausted { tenant_id: String, available: usize, required: usize },
    /// A turbo slot is in an unexpected state.
    TurboSlotStateError { tenant_id: String, expected: String, actual: String },
    /// Shared-memory corruption detected in a turbo slot.
    TurboSlotCorruption { tenant_id: String },
    /// The tenant's tier has no turbo acceleration.
    TurboNotAvailable { tenant_id: String, tier: TenantTier },
    /// Turbo slot allocation failed.
    TurboAllocationFailed { tenant_id: String, reason: String },
    /// Generic internal error.
    Internal(String),
}

impl TenantError {
    /// The protocol code of an error: 1001-1004 client, 2001-2005 quota and
    /// execution, 3001-3005 turbo, 9000 internal.
    pub open spec fn proto_code(self) -> i32 {
        match self {
            TenantError::NotFound(_) => 1001,
            TenantError::Inactive(_) => 1002,
            TenantError::InvalidId(_) => 1003,
            TenantError::InvalidTierChange { .. } => 1004,
            TenantError::QuotaExceeded(_) => 2001,
            TenantError::AcquireTimeout(_) => 2002,
            TenantError::ExecutionTimeout { .. } => 2003,
            TenantError::RuntimeError(_) => 2004,
            TenantError::PathDenied(_) => 2005,
            TenantError::TurboPoolExhausted { .. } => 3001,
            TenantError::TurboSlotStateError { .. } => 3002,
            TenantError::TurboSlotCorruption { .. } => 3003,
            TenantError::TurboNotAvailable { .. } => 3004,
            TenantError::TurboAllocationFailed { .. } => 3005,
            TenantError::Internal(_) => 9000,
        }
    }

    /// The category of an error.
    pub open spec fn category(self) -> Seq<char> {
        match self {
            TenantError::NotFound(_) | TenantError::Inactive(_) | TenantError::InvalidId(_)
            | TenantError::InvalidTierChange { .. } => "CLIENT_ERROR"@,
            TenantError::QuotaExceeded(_) | TenantError::AcquireTimeout(_)
            | TenantError::ExecutionTimeout { .. } => "QUOTA_EXCEEDED"@,
            TenantError::RuntimeError(_) | TenantError::PathDenied(_) => "EXECUTION_ERROR"@,
            TenantError::TurboPoolExhausted { .. } | TenantError::TurboSlotStateError { .. }
            | TenantError::TurboSlotCorruption { .. } | TenantError::TurboNotAvailable { .. }
            | TenantError::TurboAllocationFailed { .. } => "TURBO_ERROR"@,
            TenantError::Internal(_) => "INTERNAL_ERROR"@,
        }
    }

    /// Transient errors worth retrying: quota, acquisition timeout, exhausted or failed
    /// turbo allocation.
    pub open spec fn recoverable(self) -> bool {
        match self {
            TenantError::QuotaExceeded(_) | TenantError::AcquireTimeout(_)
            | TenantError::TurboPoolExhausted { .. } | TenantError::TurboAllocationFailed {
                ..
            } => true,
            _ => false,
        }
    }

    /// Errors that a higher tier would resolve.
    pub open spec fn upgrade_helps(self) -> bool {
        match self {
            TenantError::QuotaExceeded(_) | TenantError::TurboNotAvailable { .. }
            | TenantError::ExecutionTimeout { .. } => true,
            _ => false,
        }
    }

    /// Errors of the turbo acceleration feature.
    pub open spec fn turbo(self) -> bool {
        match self {
            TenantError::TurboPoolExhausted { .. } | TenantError::TurboSlotStateError { .. }
            | TenantError::TurboSlotCorruption { .. } | TenantError::TurboNotAvailable { .. }
            | TenantError::TurboAllocationFailed { .. } => true,
            _ => false,
        }
    }

    /// The tenant named by an error, or `unknown` for variants that carry none.
    pub open spec fn tenant(self) -> Seq<char> {
        match self {
            TenantError::NotFound(id) | TenantError::Inactive(id) | TenantError::InvalidId(id)
            | TenantError::QuotaExceeded(id) | TenantError::AcquireTimeout(id) => id@,
            TenantError::ExecutionTimeout { tenant_id, .. } => tenant_id@,
            TenantError::TurboPoolExhausted { tenant_id, .. }
            | TenantError::TurboSlotStateError { tenant_id, .. }
            | TenantError::TurboSlotCorruption { tenant_id }
            | TenantError::TurboNotAvailable { tenant_id, .. }
            | TenantError::TurboAllocationFailed { tenant_id, .. } => tenant_id@,
            _ => "unknown"@,
        }
    }

    /// The error message as displayed.
    pub open spec fn display(self) -> Seq<char> {
        match self {
            TenantError::NotFound(s) => "Tenant not found: "@ + s@,
            TenantError::Inactive(s) => "Tenant inactive: "@ + s@,
            TenantError::InvalidId(s) => "Invalid tenant ID: "@ + s@,
            TenantError::InvalidTierChange { current, requested } => "Invalid tier change from "@
                + current.spec_name() + " to "@ + requested.spec_name(),
            TenantError::QuotaExceeded(s) => "Quota exceeded for tenant: "@ + s@,
            TenantError::AcquireTimeout(s) => "Acquire timeout for tenant: "@ + s@,
            TenantError::ExecutionTimeout { tenant_id, limit_ms, elapsed_ms } =>
                "Execution timeout for tenant "@ + tenant_id@ + ": "@ + decimal(elapsed_ms as nat)
                + "ms exceeded limit of "@ + decimal(limit_ms as nat) + "ms"@,
            TenantError::RuntimeError(s) => "Runtime error: "@ + s@,
            TenantError::PathDenied(s) => "Path access denied: "@ + s@,
            TenantError::TurboPoolExhausted { tenant_id, available, required } =>
                "Turbo pool exhausted for tenant "@ + tenant_id@ + ": "@ + decimal(available as nat)
                + " slots available, "@ + decimal(required as nat) + " required"@,
            TenantError::TurboSlotStateError { tenant_id, expected, actual } =>
                "Turbo slot state error for tenant "@ + tenant_id@ + ": expected "@ + expected@
                + ", found "@ + actual@,
            TenantError::TurboSlotCorruption { tenant_id } =>
                "Turbo slot corruption detected for tenant "@ + tenant_id@ + ": magic mismatch"@,
            TenantError::TurboNotAvailable { tenant_id, tier } =>
                "Turbo acceleration not available for tenant "@ + tenant_id@ + " (tier: "@
                + tier.spec_name() + ")"@,
            TenantError::TurboAllocationFailed { tenant_id, reason } =>
                "Turbo slot allocation failed for tenant "@ + tenant_id@ + ": "@ + reason@,
            TenantError::Internal(s) => "Internal error: "@ + s@,
        }
    }

    /// The protocol code of this error.
    pub fn to_proto_code(&self) -> (r: i32)
        ensures
            r == self.proto_code(),
    {
        match self {
            TenantError::NotFound(_) => 1001,
            TenantError::Inactive(_) => 1002,
            TenantError::InvalidId(_) => 1003,
            TenantError::InvalidTierChange { .. } => 1004,
            TenantError::QuotaExceeded(_) => 2001,
            TenantError::AcquireTimeout(_) => 2002,
            TenantError::ExecutionTimeout { .. } => 2003,
            TenantError::RuntimeError(_) => 2004,
            TenantError::PathDenied(_) => 2005,
            TenantError::TurboPoolExhausted { .. } => 3001,
            TenantError::TurboSlotStateError { .. } => 3002,
            TenantError::TurboSlotCorruption { .. } => 3003,
            TenantError::TurboNotAvailable { .. } => 3004,
            TenantError::TurboAllocationFailed { .. } => 3005,
            TenantError::Internal(_) => 9000,
        }
    }

    /// The category of this error.
    pub fn to_proto_category(&self) -> (r: &'static str)
        ensures
            r@ == self.category(),
    {
        match self {
            TenantError::NotFound(_) | TenantError::Inactive(_) | TenantError::InvalidId(_)
            | TenantError::InvalidTierChange { .. } => "CLIENT_ERROR",
            TenantError::QuotaExceeded(_) | TenantError::AcquireTimeout(_)
            | TenantError::ExecutionTimeout { .. } => "QUOTA_EXCEEDED",
            TenantError::RuntimeError(_) | TenantError::PathDenied(_) => "EXECUTION_ERROR",
            TenantError::TurboPoolExhausted { .. } | TenantError::TurboSlotStateError { .. }
            | TenantError::TurboSlotCorruption { .. } | TenantError::TurboNotAvailable { .. }
            | TenantError::TurboAllocationFailed { .. } => "TURBO_ERROR",
            TenantError::Internal(_) => "INTERNAL_ERROR",
        }
    }

    /// Whether this error is transient and worth retrying.
    pub fn is_recoverable(&self) -> (r: bool)
        ensures
            r == self.recoverable(),
    {
        match self {
            TenantError::QuotaExceeded(_) | TenantError::AcquireTimeout(_)
            | TenantError::TurboPoolExhausted { .. } | TenantError::TurboAllocationFailed {
                ..
            } => true,
            _ => false,
        }
    }

    /// Whether upgrading the tenant's tier would resolve this error.
    pub fn suggests_upgrade(&self) -> (r: bool)
        ensures
            r == self.upgrade_helps(),
    {
        match self {
            TenantError::QuotaExceeded(_) | TenantError::TurboNotAvailable { .. }
            | TenantError::ExecutionTimeout { .. } => true,
            _ => false,
        }
    }

    /// Whether this error is specific to turbo acceleration.
    pub fn is_turbo_error(&self) -> (r: bool)
        ensures
            r == self.turbo(),
    {
        match self {
            TenantError::TurboPoolExhausted { .. } | TenantError::TurboSlotStateError { .. }
            | TenantError::TurboSlotCorruption { .. } | TenantError::TurboNotAvailable { .. }
            | TenantError::TurboAllocationFailed { .. } => true,
            _ => false,
        }
    }

    /// The tenant named by this error, or `unknown`.
    pub fn extract_tenant_id(&self) -> (r: String)
        ensures
            r@ == self.tenant(),
    {
        match self {
            TenantError::NotFound(id) | TenantError::Inactive(id) | TenantError::InvalidId(id)
            | TenantError::QuotaExceeded(id) | TenantError::AcquireTimeout(id) => id.clone(),
            TenantError::ExecutionTimeout { tenant_id, .. } => tenant_id.clone(),
            TenantError::TurboPoolExhausted { tenant_id, .. }
            | TenantError::TurboSlotStateError { tenant_id, .. }
            | TenantError::TurboSlotCorruption { tenant_id }
            | TenantError::TurboNotAvailable { tenant_id, .. }
            | TenantError::TurboAllocationFailed { tenant_id, .. } => tenant_id.clone(),
            _ => String::from_str("unknown"),
        }
    }

    /// Renders the error message.
    pub fn to_display_string(&self) -> (r: String)
        ensures
            r@ == self.display(),
    {
        match self {
            TenantError::NotFound(s) => String::from_str("Tenant not found: ").concat(s.as_str()),
            TenantError::Inactive(s) => String::from_str("Tenant inactive: ").concat(s.as_str()),
            TenantError::InvalidId(s) => String::from_str("Invalid tenant ID: ").concat(s.as_str()),
            TenantError::InvalidTierChange { current, requested } => String::from_str(
                "Invalid tier change from ",
            ).concat(current.name()).concat(" to ").concat(requested.name()),
            TenantError::QuotaExceeded(s) => String::from_str("Quota exceeded for tenant: ").concat(
                s.as_str(),
            ),
            TenantError::AcquireTimeout(s) => String::from_str(
                "Acquire timeout for tenant: ",
            ).concat(s.as_str()),
            TenantError::ExecutionTimeout { tenant_id, limit_ms, elapsed_ms } => String::from_str(
                "Execution timeout for tenant ",
            ).concat(tenant_id.as_str()).concat(": ").concat(
                format_decimal(*elapsed_ms).as_str(),
            ).concat("ms exceeded limit of ").concat(format_decimal(*limit_ms).as_str()).concat(
                "ms",
            ),
            TenantError::RuntimeError(s) => String::from_str("Runtime error: ").concat(s.as_str()),
            TenantError::PathDenied(s) => String::from_str("Path access denied: ").concat(
                s.as_str(),
            ),
            TenantError::TurboPoolExhausted { tenant_id, available, required } => String::from_str(
                "Turbo pool exhausted for tenant ",
            ).concat(tenant_id.as_str()).concat(": ").concat(
                format_decimal(*available as u64).as_str(),
            ).concat(" slots available, ").concat(format_decimal(*required as u64).as_str()).concat(
                " required",
            ),
            TenantError::TurboSlotStateError { tenant_id, expected, actual } => String::from_str(
                "Turbo slot state error for tenant ",
            ).concat(tenant_id.as_str()).concat(": expected ").concat(expected.as_str()).concat(
                ", found ",
            ).concat(actual.as_str()),
            TenantError::TurboSlotCorruption { tenant_id } => String::from_str(
                "Turbo slot corruption detected for tenant ",
            ).concat(tenant_id.as_str()).concat(": magic mismatch"),
            TenantError::TurboNotAvailable { tenant_id, tier } => String::from_str(
                "Turbo acceleration not available for tenant ",
            ).concat(tenant_id.as_str()).concat(" (tier: ").concat(tier.name()).concat(")"),
            TenantError::TurboAllocationFailed { tenant_id, reason } => String::from_str(
                "Turbo slot allocation failed for tenant ",
            ).concat(tenant_id.as_str()).concat(": ").concat(reason.as_str()),
            TenantError::Internal(s) => String::from_str("Internal error: ").concat(s.as_str()),
        }
    }
}

/// The category of a tenant error is fixed by the thousands of its code, and the turbo
/// errors are exactly the 3000s.
pub proof fn tenant_error_classes(e: TenantError)
    ensures
        e.turbo() <==> 3000 <= e.proto_code() < 4000,
        e.turbo() <==> e.category() == "TURBO_ERROR"@,
        1000 <= e.proto_code() < 2000 <==> e.category() == "CLIENT_ERROR"@,
        e.proto_code() == 9000 <==> e.category() == "INTERNAL_ERROR"@,
        e.recoverable() ==> e.category() == "QUOTA_EXCEEDED"@ || e.category() == "TURBO_ERROR"@,
{
    reveal_strlit("TURBO_ERROR");
    reveal_strlit("CLIENT_ERROR");
    reveal_strlit("QUOTA_EXCEEDED");
    reveal_strlit("EXECUTION_ERROR");
    reveal_strlit("INTERNAL_ERROR");
    assert("TURBO_ERROR"@[0] == 'T');
    assert("CLIENT_ERROR"@[0] == 'C');
    assert("QUOTA_EXCEEDED"@[0] == 'Q');
    assert("EXECUTION_ERROR"@[0] == 'E');
    assert("INTERNAL_ERROR"@[0] == 'I');
}

} // verus!
