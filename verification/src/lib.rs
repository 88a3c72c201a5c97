//! Verified domain contracts of the Laplace platform: tenant tiers, priorities,
//! request contexts, error taxonomies, simulation and tracing types, and the
//! framing of the QUIC RPC wire protocol.

pub mod clock;
pub mod domain;
pub mod error;
pub mod rpc;
pub mod text;

pub use error::{LaplaceError, TenantError};

pub use domain::{
    HttpMethod, PanelType, PriorityLevel, RuntimeStats, SovereignContext, TenantTier, Tier,
    TransportError, TransportHandle, TransportPacket, TuiCapabilities, VirtualRequest,
    VirtualResponse, NO_TURBO_SLOT, VUID,
};
