//! The sovereign context: the canonical request context threaded through every
//! kernel operation.

use vstd::prelude::*;
use crate::clock::unix_time_nanos;
use crate::domain::scheduling::PriorityLevel;
use crate::domain::tenant::TenantTier;
use crate::text::{decimal, format_decimal};

verus! {

/// Sentinel `turbo_slot` value meaning that no turbo slot is allocated.
pub const NO_TURBO_SLOT: u32 = 4294967295u32;

/// The canonical context object passed through all kernel operations.
#[derive(Debug, Clone)]
pub struct SovereignContext {
    /// Unique request identifier; must be non-empty.
    pub request_id: String,
    /// Multi-tenant isolation scope; must be non-empty.
    pub tenant_id: String,
    /// Distributed trace correlation ID; must be non-empty.
    pub trace_id: String,
    /// Priority level code, in `[0, 5]`.
    pub priority: u8,
    /// Tenant tier code, in `[0, 4]`.
    pub tier: u8,
    /// Zero-copy shared-memory mode; only valid for tiers from Turbo upward.
    pub is_turbo_mode: bool,
    /// Creation time, nanoseconds since the Unix epoch.
    pub timestamp: u64,
    /// Turbo slot index, or `NO_TURBO_SLOT` when none is allocated.
    pub turbo_slot: u32,
}

/// `true` or `false`, as displayed.
pub open spec fn bool_text(b: bool) -> Seq<char> {
    if b { "true"@ } else { "false"@ }
}

impl SovereignContext {
    /// A context is valid when its three identifiers are non-empty, its priority and
    /// tier codes are in range, and turbo mode is only on for a tier that supports it.
    pub open spec fn valid(self) -> bool {
        &&& self.request_id@.len() > 0
        &&& self.tenant_id@.len() > 0
        &&& self.trace_id@.len() > 0
        &&& self.priority <= 5
        &&& self.tier <= 4
        &&& self.is_turbo_mode ==> match TenantTier::with_code(self.tier as int) {
            Some(t) => t.turbo(),
            None => false,
        }
    }

    /// The text shown for the priority code.
    pub open spec fn priority_text(self) -> Seq<char> {
        match PriorityLevel::with_code(self.priority) {
            Some(p) => p.display(),
            None => "Invalid("@ + decimal(self.priority as nat) + ")"@,
        }
    }

    /// The text shown for the tier code.
    pub open spec fn tier_text(self) -> Seq<char> {
        match TenantTier::with_code(self.tier as int) {
            Some(t) => t.spec_name(),
            None => "Invalid("@ + decimal(self.tier as nat) + ")"@,
        }
    }

    /// The text shown for the turbo slot.
    pub open spec fn slot_text(self) -> Seq<char> {
        if self.turbo_slot != NO_TURBO_SLOT {
            decimal(self.turbo_slot as nat)
        } else {
            "None"@
        }
    }

    /// The context as displayed, with `elapsed` nanoseconds since its creation.
    pub open spec fn display_at(self, elapsed: u64) -> Seq<char> {
        "SovereignContext { req_id: "@ + self.request_id@ + ", tenant: "@ + self.tenant_id@
            + ", trace: "@ + self.trace_id@ + ", priority: "@ + self.priority_text()
            + ", tier: "@ + self.tier_text() + ", turbo: "@ + bool_text(self.is_turbo_mode)
            + ", turbo_slot: "@ + self.slot_text() + ", elapsed: "@ + decimal(elapsed as nat)
            + "ns }"@
    }

    /// A standard-FFI context: priority High (3), tier Standard (1), no turbo, no slot.
    pub fn new(request_id: String, tenant_id: String, trace_id: String) -> (r: Self)
        ensures
            r.request_id == request_id,
            r.tenant_id == tenant_id,
            r.trace_id == trace_id,
            r.priority == 3,
            r.tier == 1,
            !r.is_turbo_mode,
            r.turbo_slot == NO_TURBO_SLOT,
            r.valid() <==> request_id@.len() > 0 && tenant_id@.len() > 0 && trace_id@.len() > 0,
    {
        SovereignContext {
            request_id,
            tenant_id,
            trace_id,
            priority: PriorityLevel::High.as_u8(),
            tier: TenantTier::Standard.as_u8(),
            is_turbo_mode: false,
            timestamp: Self::current_timestamp(),
            turbo_slot: NO_TURBO_SLOT,
        }
    }

    /// A turbo-mode context: priority High (3), tier Turbo (2), turbo on, no slot yet.
    pub fn new_turbo(request_id: String, tenant_id: String, trace_id: String) -> (r: Self)
        ensures
            r.request_id == request_id,
            r.tenant_id == tenant_id,
            r.trace_id == trace_id,
            r.priority == 3,
            r.tier == 2,
            r.is_turbo_mode,
            r.turbo_slot == NO_TURBO_SLOT,
            r.valid() <==> request_id@.len() > 0 && tenant_id@.len() > 0 && trace_id@.len() > 0,
    {
        SovereignContext {
            request_id,
            tenant_id,
            trace_id,
            priority: PriorityLevel::High.as_u8(),
            tier: TenantTier::Turbo.as_u8(),
            is_turbo_mode: true,
            timestamp: Self::current_timestamp(),
            turbo_slot: NO_TURBO_SLOT,
        }
    }

    /// Sets the priority, clamped to at most 5.
    pub fn with_priority(self, priority: u8) -> (r: Self)
        ensures
            r == (SovereignContext { priority: if priority < 5 { priority } else { 5 }, ..self }),
    {
        let mut s = self;
        s.priority = if priority < 5 { priority } else { 5 };
        s
    }

    /// Sets the tier; turbo mode is switched off when the tier does not support it.
    pub fn with_tier(self, tier: TenantTier) -> (r: Self)
        ensures
            r == (SovereignContext {
                tier: tier.code(),
                is_turbo_mode: self.is_turbo_mode && tier.turbo(),
                ..self
            }),
    {
        let mut s = self;
        s.tier = tier.as_u8();
        if !tier.uses_turbo_acceleration() {
            s.is_turbo_mode = false;
        }
        s
    }

    /// Assigns a turbo slot index.
    pub fn allocate_turbo_slot(self, slot: u32) -> (r: Self)
        ensures
            r == (SovereignContext { turbo_slot: slot, ..self }),
    {
        let mut s = self;
        s.turbo_slot = slot;
        s
    }

    /// A child context for a spawned operation: same tenant, trace, priority, tier and
    /// turbo mode; new request id and timestamp; no turbo slot.
    pub fn spawn_child(&self, new_request_id: String) -> (r: Self)
        ensures
            r.request_id == new_request_id,
            r.tenant_id == self.tenant_id,
            r.trace_id == self.trace_id,
            r.priority == self.priority,
            r.tier == self.tier,
            r.is_turbo_mode == self.is_turbo_mode,
            r.turbo_slot == NO_TURBO_SLOT,
            self.valid() && new_request_id@.len() > 0 ==> r.valid(),
    {
        SovereignContext {
            request_id: new_request_id,
            tenant_id: self.tenant_id.clone(),
            trace_id: self.trace_id.clone(),
            priority: self.priority,
            tier: self.tier,
            is_turbo_mode: self.is_turbo_mode,
            timestamp: Self::current_timestamp(),
            turbo_slot: NO_TURBO_SLOT,
        }
    }

    /// The current wall-clock time in nanoseconds since the Unix epoch (0 before the epoch).
    pub fn current_timestamp() -> u64 {
        unix_time_nanos()
    }

    /// Whether the context is valid for request processing.
    pub fn is_valid(&self) -> (r: bool)
        ensures
            r == self.valid(),
    {
        let has_ids = !self.request_id.as_str().is_empty() && !self.tenant_id.as_str().is_empty()
            && !self.trace_id.as_str().is_empty();
        let priority_valid = self.priority <= 5;
        let tier_valid = self.tier <= 4;
        let turbo_consistent = if self.is_turbo_mode {
            match TenantTier::from_u8(self.tier) {
                Some(t) => t.uses_turbo_acceleration(),
                None => false,
            }
        } else {
            true
        };
        has_ids && priority_valid && tier_valid && turbo_consistent
    }

    /// Nanoseconds from the context's creation to `now_ns`; 0 when `now_ns` is earlier.
    pub fn elapsed_since(&self, now_ns: u64) -> (r: u64)
        ensures
            r == if now_ns >= self.timestamp { (now_ns - self.timestamp) as u64 } else { 0 },
    {
        now_ns.saturating_sub(self.timestamp)
    }

    /// Nanoseconds elapsed since the context's creation, by the wall clock; what the
    /// clock reads is not specified, so the result is only bounded.
    pub fn elapsed_ns(&self) -> (r: u64)
        ensures
            r + self.timestamp <= u64::MAX,
    {
        self.elapsed_since(Self::current_timestamp())
    }

    /// Whether a turbo slot is allocated.
    pub fn has_turbo_slot(&self) -> (r: bool)
        ensures
            r == (self.turbo_slot != NO_TURBO_SLOT),
    {
        self.turbo_slot != NO_TURBO_SLOT
    }

    /// The allocated turbo slot, if any.
    pub fn get_turbo_slot(&self) -> (r: Option<u32>)
        ensures
            r == if self.turbo_slot != NO_TURBO_SLOT { Some(self.turbo_slot) } else { None },
    {
        if self.turbo_slot != NO_TURBO_SLOT {
            Some(self.turbo_slot)
        } else {
            None
        }
    }

    /// The priority as a level, if its code is in range.
    pub fn priority_level(&self) -> (r: Option<PriorityLevel>)
        ensures
            r == PriorityLevel::with_code(self.priority),
    {
        PriorityLevel::from_u8(self.priority)
    }

    /// The tier as an enum, if its code is in range.
    pub fn tenant_tier(&self) -> (r: Option<TenantTier>)
        ensures
            r == TenantTier::with_code(self.tier as int),
    {
        TenantTier::from_u8(self.tier)
    }

    /// Renders the context with `elapsed` nanoseconds since its creation.
    pub fn describe(&self, elapsed: u64) -> (r: String)
        ensures
            r@ == self.display_at(elapsed),
    {
        let priority_text = match self.priority_level() {
            Some(p) => p.to_display_string(),
            None => String::from_str("Invalid(").concat(format_decimal(self.priority as u64).as_str()).concat(")"),
        };
        let tier_text = match self.tenant_tier() {
            Some(t) => t.to_display_string(),
            None => String::from_str("Invalid(").concat(format_decimal(self.tier as u64).as_str()).concat(")"),
        };
        let slot_text = if self.has_turbo_slot() {
            format_decimal(self.turbo_slot as u64)
        } else {
            String::from_str("None")
        };
        let turbo_text = if self.is_turbo_mode { "true" } else { "false" };
        String::from_str("SovereignContext { req_id: ")
            .concat(self.request_id.as_str())
            .concat(", tenant: ")
            .concat(self.tenant_id.as_str())
            .concat(", trace: ")
            .concat(self.trace_id.as_str())
            .concat(", priority: ")
            .concat(priority_text.as_str())
            .concat(", tier: ")
            .concat(tier_text.as_str())
            .concat(", turbo: ")
            .concat(turbo_text)
            .concat(", turbo_slot: ")
            .concat(slot_text.as_str())
            .concat(", elapsed: ")
            .concat(format_decimal(elapsed).as_str())
            .concat("ns }")
    }

    /// Renders the context with the time elapsed by the wall clock: the rendering for
    /// some elapsed time, which the clock decides.
    pub fn to_display_string(&self) -> (r: String)
        ensures
            exists|elapsed: u64| r@ == self.display_at(elapsed),
    {
        let elapsed = self.elapsed_ns();
        let r = self.describe(elapsed);
        assert(r@ == self.display_at(elapsed));
        r
    }
}

impl Default for SovereignContext {
    /// Identifiers `"default"`, priority Normal (2), tier Standard (1), no turbo,
    /// timestamp 0, no slot.
    fn default() -> (r: Self)
        ensures
            r.request_id@ == "default"@,
            r.tenant_id@ == "default"@,
            r.trace_id@ == "default"@,
            r.priority == 2,
            r.tier == 1,
            !r.is_turbo_mode,
            r.timestamp == 0,
            r.turbo_slot == NO_TURBO_SLOT,
    {
        SovereignContext {
            request_id: String::from_str("default"),
            tenant_id: String::from_str("default"),
            trace_id: String::from_str("default"),
            priority: PriorityLevel::Normal.as_u8(),
            tier: TenantTier::Standard.as_u8(),
            is_turbo_mode: false,
            timestamp: 0,
            turbo_slot: NO_TURBO_SLOT,
        }
    }
}

/// Builders keep a context valid: a valid context stays valid under `with_priority`,
/// `with_tier` and `allocate_turbo_slot`, since priorities are clamped and turbo mode
/// is dropped for tiers without acceleration.
pub proof fn builders_preserve_validity(c: SovereignContext, p: u8, t: TenantTier, slot: u32)
    requires
        c.valid(),
    ensures
        (SovereignContext { priority: if p < 5 { p } else { 5 }, ..c }).valid(),
        (SovereignContext { tier: t.code(), is_turbo_mode: c.is_turbo_mode && t.turbo(), ..c }).valid(),
        (SovereignContext { turbo_slot: slot, ..c }).valid(),
{
}


/// Validity in plain numbers: a context is valid exactly when its three identifiers are
/// non-empty, its priority code is at most 5, its tier code at most 4, and turbo mode is
/// on only with a tier code of at least 2 (Turbo, Pro or Enterprise). In particular a
/// Free or Standard context in turbo mode is never valid.
pub proof fn validity_in_numbers(c: SovereignContext)
    ensures
        c.valid() <==> (c.request_id@.len() > 0 && c.tenant_id@.len() > 0 && c.trace_id@.len()
            > 0 && c.priority <= 5 && c.tier <= 4 && (c.is_turbo_mode ==> 2 <= c.tier)),
        c.valid() && c.is_turbo_mode ==> c.tier >= 2,
        c.is_turbo_mode && c.tier < 2 ==> !c.valid(),
{
}

} // verus!
