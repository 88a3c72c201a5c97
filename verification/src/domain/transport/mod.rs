//! Transport domain: transport errors, packets, virtual HTTP requests and responses,
//! and the pluggable clock and packet-interception seams.

pub mod error;
pub mod pluggable;
pub mod types;

pub use error::TransportError;
pub use pluggable::{
    InterceptReason, NetworkClockProvider, NullInterceptor, PacketBuffer, PacketInterceptor,
    WallClockProvider,
};
pub use types::{
    HeaderMap, HttpMethod, TransportHandle, TransportPacket, VirtualRequest, VirtualResponse, VUID,
};
