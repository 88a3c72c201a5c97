//! Request scheduling priority levels.

use vstd::prelude::*;

verus! {

/// Request scheduling priority level, totally ordered from `Lowest` to `SystemCritical`.
#[derive(Debug, Clone, Copy, PartialEq, Eq, Structural, PartialOrd, Ord, Hash)]
pub enum PriorityLevel {
    /// Background and batch work (0).
    Lowest,
    /// Deferred, non-interactive work (1).
    Low,
    /// General-purpose baseline (2).
    Normal,
    /// Interactive user operations (3).
    High,
    /// SLA-critical operations (4).
    Critical,
    /// Kernel-internal operations (5).
    SystemCritical,
}

impl PriorityLevel {
    /// The numeric code of a priority level, in `[0, 5]`.
    pub open spec fn code(self) -> u8 {
        match self {
            PriorityLevel::Lowest => 0,
            PriorityLevel::Low => 1,
            PriorityLevel::Normal => 2,
            PriorityLevel::High => 3,
            PriorityLevel::Critical => 4,
            PriorityLevel::SystemCritical => 5,
        }
    }

    /// The priority level with numeric code `value`, if there is one.
    pub open spec fn with_code(value: u8) -> Option<PriorityLevel> {
        if value == 0 {
            Some(PriorityLevel::Lowest)
        } else if value == 1 {
            Some(PriorityLevel::Low)
        } else if value == 2 {
            Some(PriorityLevel::Normal)
        } else if value == 3 {
            Some(PriorityLevel::High)
        } else if value == 4 {
            Some(PriorityLevel::Critical)
        } else if value == 5 {
            Some(PriorityLevel::SystemCritical)
        } else {
            None
        }
    }

    /// The name of a priority level, as displayed.
    pub open spec fn display(self) -> Seq<char> {
        match self {
            PriorityLevel::Lowest => "Lowest"@,
            PriorityLevel::Low => "Low"@,
            PriorityLevel::Normal => "Normal"@,
            PriorityLevel::High => "High"@,
            PriorityLevel::Critical => "Critical"@,
            PriorityLevel::SystemCritical => "SystemCritical"@,
        }
    }

    /// Parses a priority from its numeric code; `None` outside `[0, 5]`.
    pub fn from_u8(value: u8) -> (r: Option<PriorityLevel>)
        ensures
            r == PriorityLevel::with_code(value),
    {
        match value {
            0 => Some(PriorityLevel::Lowest),
            1 => Some(PriorityLevel::Low),
            2 => Some(PriorityLevel::Normal),
            3 => Some(PriorityLevel::High),
            4 => Some(PriorityLevel::Critical),
            5 => Some(PriorityLevel::SystemCritical),
            _ => None,
        }
    }

    /// The numeric code of this priority level.
    pub fn as_u8(&self) -> (r: u8)
        ensures
            r == self.code(),
    {
        match self {
            PriorityLevel::Lowest => 0,
            PriorityLevel::Low => 1,
            PriorityLevel::Normal => 2,
            PriorityLevel::High => 3,
            PriorityLevel::Critical => 4,
            PriorityLevel::SystemCritical => 5,
        }
    }

    /// The name of this priority level, as displayed.
    pub fn to_display_string(&self) -> (r: String)
        ensures
            r@ == self.display(),
    {
        match self {
            PriorityLevel::Lowest => String::from_str("Lowest"),
            PriorityLevel::Low => String::from_str("Low"),
            PriorityLevel::Normal => String::from_str("Normal"),
            PriorityLevel::High => String::from_str("High"),
            PriorityLevel::Critical => String::from_str("Critical"),
            PriorityLevel::SystemCritical => String::from_str("SystemCritical"),
        }
    }
}

impl Default for PriorityLevel {
    /// The default priority is `Normal`.
    fn default() -> (r: PriorityLevel)
        ensures
            r == PriorityLevel::Normal,
    {
        PriorityLevel::Normal
    }
}

/// Parsing a priority's code gives the priority back; the codes are exactly `0..=5`.
pub proof fn priority_code_roundtrip(p: PriorityLevel, value: u8)
    ensures
        PriorityLevel::with_code(p.code()) == Some(p),
        p.code() <= 5,
        PriorityLevel::with_code(value) is Some <==> value <= 5,
        PriorityLevel::with_code(value) matches Some(q) ==> q.code() == value,
{
}

} // verus!
