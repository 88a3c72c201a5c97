//! Entropy seed primitives for deterministic simulation.

use vstd::prelude::*;
use crate::text::{decimal, format_decimal, format_hex_padded, hex, zero_padded};

verus! {

/// Generic context identifier.
#[derive(Debug, Clone, Copy, PartialEq, Eq, Structural, PartialOrd, Ord, Hash)]
pub struct ContextId(pub u64);

impl ContextId {
    /// The identifier as displayed: `Ctx#<id>`.
    pub open spec fn display(self) -> Seq<char> {
        "Ctx#"@ + decimal(self.0 as nat)
    }

    /// Wraps a raw identifier.
    pub fn new(id: u64) -> (r: Self)
        ensures
            r.0 == id,
    {
        ContextId(id)
    }

    /// The raw identifier.
    pub fn as_u64(self) -> (r: u64)
        ensures
            r == self.0,
    {
        self.0
    }

    /// Renders the identifier as `Ctx#<id>`.
    pub fn to_display_string(&self) -> (r: String)
        ensures
            r@ == self.display(),
    {
        String::from_str("Ctx#").concat(format_decimal(self.0).as_str())
    }
}

/// Seed derived deterministically from a global seed and a context identifier.
#[derive(Debug, Clone, Copy, PartialEq, Eq, Structural)]
pub struct LocalSeed(u64);

impl LocalSeed {
    /// The raw seed value.
    pub closed spec fn value(self) -> u64 {
        self.0
    }

    /// The seed as displayed: `Seed(0x<16 hex digits>)`.
    pub open spec fn display(self) -> Seq<char> {
        "Seed(0x"@ + zero_padded(hex(self.value() as nat), 16) + ")"@
    }

    /// Wraps a raw seed value.
    pub fn new(seed: u64) -> (r: Self)
        ensures
            r.value() == seed,
    {
        LocalSeed(seed)
    }

    /// The raw seed value.
    pub fn as_u64(self) -> (r: u64)
        ensures
            r == self.value(),
    {
        self.0
    }

    /// Renders the seed as `Seed(0x<16 hex digits>)`.
    pub fn to_display_string(&self) -> (r: String)
        ensures
            r@ == self.display(),
    {
        String::from_str("Seed(0x").concat(format_hex_padded(self.0, 16).as_str()).concat(")")
    }
}

/// Auditable record of a deterministic seed assignment.
#[derive(Debug, Clone, PartialEq, Eq, Structural)]
pub struct SeedAssignment {
    /// The context being assigned a seed.
    pub ctx_id: ContextId,
    /// The derived local seed.
    pub local_seed: LocalSeed,
    /// Lamport clock timestamp at assignment time.
    pub lamport_ts: u64,
}

impl SeedAssignment {
    /// The record as displayed.
    pub open spec fn display(self) -> Seq<char> {
        "SeedAssignment { "@ + self.ctx_id.display() + ", "@ + self.local_seed.display()
            + ", lamport: "@ + decimal(self.lamport_ts as nat) + " }"@
    }

    /// Creates a record.
    pub fn new(ctx_id: ContextId, local_seed: LocalSeed, lamport_ts: u64) -> (r: Self)
        ensures
            r == (SeedAssignment { ctx_id, local_seed, lamport_ts }),
    {
        SeedAssignment { ctx_id, local_seed, lamport_ts }
    }

    /// Renders the record.
    pub fn to_display_string(&self) -> (r: String)
        ensures
            r@ == self.display(),
    {
        String::from_str("SeedAssignment { ")
            .concat(self.ctx_id.to_display_string().as_str())
            .concat(", ")
            .concat(self.local_seed.to_display_string().as_str())
            .concat(", lamport: ")
            .concat(format_decimal(self.lamport_ts).as_str())
            .concat(" }")
    }
}

/// Root configuration for seed derivation in a simulation run.
#[derive(Debug, Clone, Copy, PartialEq, Eq, Structural)]
pub struct GlobalSeedConfig {
    /// The global seed value.
    pub seed: u64,
    /// Lamport clock modulus for state space bounding.
    pub lamport_mod: u64,
    /// Maximum number of contexts.
    pub max_contexts: usize,
}

impl GlobalSeedConfig {
    /// Creates a configuration.
    pub fn new(seed: u64, lamport_mod: u64, max_contexts: usize) -> (r: Self)
        ensures
            r == (GlobalSeedConfig { seed, lamport_mod, max_contexts }),
    {
        GlobalSeedConfig { seed, lamport_mod, max_contexts }
    }

    /// The configuration used by tests: seed 12345, Lamport modulus 8, 3 contexts.
    pub fn test_config() -> (r: Self)
        ensures
            r == (GlobalSeedConfig { seed: 12345, lamport_mod: 8, max_contexts: 3 }),
    {
        GlobalSeedConfig { seed: 12345, lamport_mod: 8, max_contexts: 3 }
    }
}

/// Source of entropy, implemented by the platform's random number generators.
pub trait Entropy: Send + Sync + core::fmt::Debug {
    /// A random `u64`.
    fn next_u64(&self) -> u64;

    /// Fills `dest` with random bytes.
    fn fill_bytes(&self, dest: &mut [u8]);

    /// A random value uniformly distributed in `[0, max)`.
    fn next_range(&self, max: u64) -> u64;
}

} // verus!
