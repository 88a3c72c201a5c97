//! Context-pool classifications: how a tenant's execution context is stored and
//! how healthy a pool is.

use vstd::prelude::*;

verus! {

/// Storage strategy for a tenant's execution context.
#[derive(Debug, Clone, Copy, PartialEq, Eq, Structural, Hash)]
pub enum StorageStrategy {
    /// Context stored through the foreign-function interface with serialization.
    Standard,
    /// Zero-copy shared-memory context storage.
    Turbo,
}

impl StorageStrategy {
    /// Expected round-trip latency in nanoseconds.
    pub open spec fn latency_ns(self) -> u64 {
        match self {
            StorageStrategy::Standard => 41_500,
            StorageStrategy::Turbo => 500,
        }
    }

    /// The strategy's identifier.
    pub open spec fn spec_name(self) -> Seq<char> {
        match self {
            StorageStrategy::Standard => "Standard-FFI"@,
            StorageStrategy::Turbo => "Turbo-ZeroCopy"@,
        }
    }

    /// Expected round-trip latency: 41 500 ns for `Standard`, 500 ns for `Turbo`.
    pub fn expected_latency_ns(self) -> (r: u64)
        ensures
            r == self.latency_ns(),
    {
        match self {
            StorageStrategy::Standard => 41_500,
            StorageStrategy::Turbo => 500,
        }
    }

    /// Whether the strategy avoids serialization; true only for `Turbo`.
    pub fn is_zero_copy(self) -> (r: bool)
        ensures
            r <==> self == StorageStrategy::Turbo,
    {
        match self {
            StorageStrategy::Turbo => true,
            StorageStrategy::Standard => false,
        }
    }

    /// `"Standard-FFI"` or `"Turbo-ZeroCopy"`.
    pub fn name(self) -> (r: &'static str)
        ensures
            r@ == self.spec_name(),
    {
        match self {
            StorageStrategy::Standard => {
                proof { reveal_strlit("Standard-FFI"); }
                "Standard-FFI"
            },
            StorageStrategy::Turbo => {
                proof { reveal_strlit("Turbo-ZeroCopy"); }
                "Turbo-ZeroCopy"
            },
        }
    }

    /// The strategy as displayed: its name.
    pub fn to_display_string(&self) -> (r: String)
        ensures
            r@ == self.spec_name(),
    {
        String::from_str(self.name())
    }
}

/// Health of a context pool.
#[derive(Debug, Clone, PartialEq, Eq)]
pub enum HealthStatus {
    /// All metrics within thresholds.
    Healthy,
    /// Partially impaired but still serving requests.
    Degraded {
        /// Why the pool is degraded.
        reason: String,
    },
    /// Non-functional; must be recovered before use.
    Unhealthy {
        /// Why the pool failed.
        reason: String,
    },
}

impl HealthStatus {
    /// The reason carried by a degraded or unhealthy status.
    pub open spec fn spec_reason(self) -> Option<Seq<char>> {
        match self {
            HealthStatus::Healthy => None,
            HealthStatus::Degraded { reason } => Some(reason@),
            HealthStatus::Unhealthy { reason } => Some(reason@),
        }
    }

    /// True only for `Healthy`.
    pub fn is_healthy(&self) -> (r: bool)
        ensures
            r <==> *self is Healthy,
    {
        match self {
            HealthStatus::Healthy => true,
            _ => false,
        }
    }

    /// True only for `Degraded`.
    pub fn is_degraded(&self) -> (r: bool)
        ensures
            r <==> *self is Degraded,
    {
        match self {
            HealthStatus::Degraded { .. } => true,
            _ => false,
        }
    }

    /// True only for `Unhealthy`.
    pub fn is_unhealthy(&self) -> (r: bool)
        ensures
            r <==> *self is Unhealthy,
    {
        match self {
            HealthStatus::Unhealthy { .. } => true,
            _ => false,
        }
    }

    /// The reason of a degraded or unhealthy status; `None` when healthy.
    pub fn reason(&self) -> (r: Option<&str>)
        ensures
            r is Some <==> self.spec_reason() is Some,
            r matches Some(s) ==> Some(s@) == self.spec_reason(),
    {
        match self {
            HealthStatus::Healthy => None,
            HealthStatus::Degraded { reason } => Some(reason.as_str()),
            HealthStatus::Unhealthy { reason } => Some(reason.as_str()),
        }
    }
}

/// A status is exactly one of healthy, degraded or unhealthy, and carries a reason
/// exactly when it is not healthy.
pub proof fn health_classes(h: HealthStatus)
    ensures
        (h is Healthy) as int + (h is Degraded) as int + (h is Unhealthy) as int == 1,
        h.spec_reason() is Some <==> !(h is Healthy),
{
}

} // verus!
