//! Errors of Kraken DNA and virtual user operations.

use vstd::prelude::*;
use crate::domain::entropy::{ContextId, LocalSeed};
use crate::text::{decimal, format_decimal};

verus! {

/// Error types for Kraken DNA and VU operations.
#[derive(Debug, Clone, PartialEq, Eq)]
pub enum KrakenError {
    /// Maximum VU quota exceeded.
    QuotaExceeded { current: usize, max: usize },
    /// VU id already registered.
    DuplicateRegistration(ContextId),
    /// VU not found in the registry.
    NotFound(ContextId),
    /// A stored seed differs from the one derived for the VU.
    InvalidSeedAssignment { vu_id: ContextId, expected: LocalSeed, got: LocalSeed },
    /// RNG state corrupted.
    RngStateCorrupted(String),
    /// Virtual clock error.
    ClockError(String),
    /// Invalid state transition in the VU state machine.
    InvalidTransition { from_state: String, action: String, reason: String },
    /// Network-level error from the virtual transport layer.
    NetworkError { reason: String },
    /// Scenario execution error.
    InvalidScenario(String),
    /// Generic operational error.
    Other(String),
}

/// Result of Kraken DNA and VU operations.
pub type KrakenResult<T> = Result<T, KrakenError>;

impl KrakenError {
    /// The error message as displayed.
    pub open spec fn display(self) -> Seq<char> {
        match self {
            KrakenError::QuotaExceeded { current, max } => "VU quota exceeded: "@ + decimal(
                current as nat,
            ) + "/"@ + decimal(max as nat),
            KrakenError::DuplicateRegistration(vu) => "VU "@ + vu.display() + " already registered"@,
            KrakenError::NotFound(vu) => "VU "@ + vu.display() + " not found"@,
            KrakenError::InvalidSeedAssignment { vu_id, expected, got } => "Invalid seed for "@
                + vu_id.display() + ": expected "@ + expected.display() + ", got "@ + got.display(),
            KrakenError::RngStateCorrupted(msg) => "RNG state corrupted: "@ + msg@,
            KrakenError::ClockError(msg) => "Clock error: "@ + msg@,
            KrakenError::InvalidTransition { from_state, action, reason } =>
                "Invalid transition from state '"@ + from_state@ + "' with action '"@ + action@
                + "': "@ + reason@,
            KrakenError::NetworkError { reason } => "Network error: "@ + reason@,
            KrakenError::InvalidScenario(msg) => "Invalid scenario: "@ + msg@,
            KrakenError::Other(msg) => "Kraken error: "@ + msg@,
        }
    }

    /// Renders the error message.
    pub fn to_display_string(&self) -> (r: String)
        ensures
            r@ == self.display(),
    {
        match self {
            KrakenError::QuotaExceeded { current, max } => String::from_str("VU quota exceeded: ")
                .concat(format_decimal(*current as u64).as_str()).concat("/").concat(
                format_decimal(*max as u64).as_str(),
            ),
            KrakenError::DuplicateRegistration(vu) => String::from_str("VU ").concat(
                vu.to_display_string().as_str(),
            ).concat(" already registered"),
            KrakenError::NotFound(vu) => String::from_str("VU ").concat(
                vu.to_display_string().as_str(),
            ).concat(" not found"),
            KrakenError::InvalidSeedAssignment { vu_id, expected, got } => String::from_str(
                "Invalid seed for ",
            ).concat(vu_id.to_display_string().as_str()).concat(": expected ").concat(
                expected.to_display_string().as_str(),
            ).concat(", got ").concat(got.to_display_string().as_str()),
            KrakenError::RngStateCorrupted(msg) => String::from_str("RNG state corrupted: ").concat(
                msg.as_str(),
            ),
            KrakenError::ClockError(msg) => String::from_str("Clock error: ").concat(msg.as_str()),
            KrakenError::InvalidTransition { from_state, action, reason } => String::from_str(
                "Invalid transition from state '",
            ).concat(from_state.as_str()).concat("' with action '").concat(action.as_str()).concat(
                "': ",
            ).concat(reason.as_str()),
            KrakenError::NetworkError { reason } => String::from_str("Network error: ").concat(
                reason.as_str(),
            ),
            KrakenError::InvalidScenario(msg) => String::from_str("Invalid scenario: ").concat(
                msg.as_str(),
            ),
            KrakenError::Other(msg) => String::from_str("Kraken error: ").concat(msg.as_str()),
        }
    }
}

} // verus!
