//! Tenant subscription tiers and the business rules attached to them.

use vstd::prelude::*;

verus! {

/// Tenant subscription tier, from `Free` (0) to `Enterprise` (4).
#[derive(Debug, Clone, Copy, PartialEq, Eq, Structural, PartialOrd, Ord, Hash)]
pub enum TenantTier {
    /// Evaluation and hobbyist use (0).
    Free,
    /// Small business and professional use (1).
    Standard,
    /// Performance-focused customers; zero-copy acceleration (2).
    Turbo,
    /// Power users and growing teams (3).
    Pro,
    /// Mission-critical deployments with Sentinel monitoring (4).
    Enterprise,
}

impl TenantTier {
    /// The numeric value of a tier, in `[0, 4]`.
    pub open spec fn code(self) -> u8 {
        match self {
            TenantTier::Free => 0,
            TenantTier::Standard => 1,
            TenantTier::Turbo => 2,
            TenantTier::Pro => 3,
            TenantTier::Enterprise => 4,
        }
    }

    /// The tier with numeric value `value`, if there is one.
    pub open spec fn with_code(value: int) -> Option<TenantTier> {
        if value == 0 {
            Some(TenantTier::Free)
        } else if value == 1 {
            Some(TenantTier::Standard)
        } else if value == 2 {
            Some(TenantTier::Turbo)
        } else if value == 3 {
            Some(TenantTier::Pro)
        } else if value == 4 {
            Some(TenantTier::Enterprise)
        } else {
            None
        }
    }

    /// Tiers from `Turbo` upward get zero-copy shared-memory acceleration.
    pub open spec fn turbo(self) -> bool {
        self.code() >= 2
    }

    /// The name of a tier.
    pub open spec fn spec_name(self) -> Seq<char> {
        match self {
            TenantTier::Free => "Free"@,
            TenantTier::Standard => "Standard"@,
            TenantTier::Turbo => "Turbo"@,
            TenantTier::Pro => "Pro"@,
            TenantTier::Enterprise => "Enterprise"@,
        }
    }

    /// Whether this tier qualifies for zero-copy Turbo acceleration.
    pub fn uses_turbo_acceleration(self) -> (r: bool)
        ensures
            r == self.turbo(),
    {
        match self {
            TenantTier::Turbo | TenantTier::Pro | TenantTier::Enterprise => true,
            _ => false,
        }
    }

    /// Whether this tier has Sentinel AI monitoring (Enterprise only).
    pub fn has_sentinel_monitoring(self) -> (r: bool)
        ensures
            r == (self == TenantTier::Enterprise),
    {
        match self {
            TenantTier::Enterprise => true,
            _ => false,
        }
    }

    /// The human-readable name of this tier.
    pub fn name(self) -> (r: &'static str)
        ensures
            r@ == self.spec_name(),
    {
        match self {
            TenantTier::Free => "Free",
            TenantTier::Standard => "Standard",
            TenantTier::Turbo => "Turbo",
            TenantTier::Pro => "Pro",
            TenantTier::Enterprise => "Enterprise",
        }
    }

    /// Parses a tier from its numeric value; `None` outside `[0, 4]`.
    pub fn from_u8(value: u8) -> (r: Option<TenantTier>)
        ensures
            r == TenantTier::with_code(value as int),
    {
        match value {
            0 => Some(TenantTier::Free),
            1 => Some(TenantTier::Standard),
            2 => Some(TenantTier::Turbo),
            3 => Some(TenantTier::Pro),
            4 => Some(TenantTier::Enterprise),
            _ => None,
        }
    }

    /// The numeric value of this tier.
    pub fn as_u8(self) -> (r: u8)
        ensures
            r == self.code(),
    {
        match self {
            TenantTier::Free => 0,
            TenantTier::Standard => 1,
            TenantTier::Turbo => 2,
            TenantTier::Pro => 3,
            TenantTier::Enterprise => 4,
        }
    }

    /// An upgrade is valid exactly when the target tier is strictly higher.
    pub fn can_upgrade_to(self, target: Self) -> (r: bool)
        ensures
            r == (target.code() > self.code()),
    {
        target.as_u8() > self.as_u8()
    }

    /// The next higher tier; `None` at `Enterprise`.
    pub fn next_tier(self) -> (r: Option<Self>)
        ensures
            r == TenantTier::with_code(self.code() + 1),
    {
        Self::from_u8(self.as_u8() + 1)
    }

    /// The next lower tier; `None` at `Free`.
    pub fn previous_tier(self) -> (r: Option<Self>)
        ensures
            r == TenantTier::with_code(self.code() - 1),
    {
        if self.as_u8() == 0 {
            None
        } else {
            Self::from_u8(self.as_u8() - 1)
        }
    }

    /// Whether this tier permits turbo mode (the same tiers as `uses_turbo_acceleration`).
    pub fn supports_turbo(&self) -> (r: bool)
        ensures
            r == self.turbo(),
    {
        match self {
            TenantTier::Turbo | TenantTier::Pro | TenantTier::Enterprise => true,
            _ => false,
        }
    }

    /// The tier's name, as displayed.
    pub fn to_display_string(&self) -> (r: String)
        ensures
            r@ == self.spec_name(),
    {
        String::from_str(self.name())
    }
}

impl Default for TenantTier {
    /// The default tier is `Free`.
    fn default() -> (r: TenantTier)
        ensures
            r == TenantTier::Free,
    {
        TenantTier::Free
    }
}

/// Parsing a tier's value gives the tier back; the values are exactly `0..=4`.
pub proof fn tier_code_roundtrip(t: TenantTier, value: int)
    ensures
        TenantTier::with_code(t.code() as int) == Some(t),
        TenantTier::with_code(value) is Some <==> 0 <= value <= 4,
        TenantTier::with_code(value) matches Some(u) ==> u.code() == value,
{
}

/// `next_tier` and `previous_tier` undo each other, and each step up is a valid upgrade.
pub proof fn tier_progression(t: TenantTier, u: TenantTier)
    ensures
        TenantTier::with_code(t.code() + 1) == Some(u) ==> TenantTier::with_code(u.code() - 1)
            == Some(t) && t.code() < u.code(),
        TenantTier::with_code(t.code() - 1) == Some(u) ==> TenantTier::with_code(u.code() + 1)
            == Some(t),
        TenantTier::with_code(t.code() + 1) is None <==> t == TenantTier::Enterprise,
        TenantTier::with_code(t.code() - 1) is None <==> t == TenantTier::Free,
{
}

/// Upgrades follow a strict order: no tier upgrades to itself, upgrades compose, and of
/// two distinct tiers exactly one can upgrade to the other.
pub proof fn upgrade_order(a: TenantTier, b: TenantTier, c: TenantTier)
    ensures
        !(a.code() < a.code()),
        a.code() < b.code() && b.code() < c.code() ==> a.code() < c.code(),
        a != b ==> (a.code() < b.code()) != (b.code() < a.code()),
{
}

/// Only Enterprise gets Sentinel monitoring, and it also has turbo acceleration.
pub proof fn sentinel_implies_turbo(t: TenantTier)
    ensures
        t == TenantTier::Enterprise ==> t.turbo(),
{
}

} // verus!
