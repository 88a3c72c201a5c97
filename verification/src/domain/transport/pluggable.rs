//! Pluggable seams of the network stack: the clock that stamps packets and the
//! interceptor that sees every packet sent and received.

use vstd::prelude::*;
use crate::clock::unix_time_micros;
use crate::domain::transport::types::TransportPacket;

verus! {

/// Inbound packet buffer flowing from the network layer to the kernel.
pub type PacketBuffer = TransportPacket;

/// Source of time-of-day for packet timestamps.
pub trait NetworkClockProvider: Send + Sync + 'static {
    /// Current time in microseconds since the Unix epoch.
    fn now_us(&self) -> u64;
}

/// Clock provider that reads the operating system's wall clock.
#[derive(Debug, Clone, Copy, Default)]
pub struct WallClockProvider;

impl NetworkClockProvider for WallClockProvider {
    /// Microseconds since the Unix epoch by the wall clock; 0 before the epoch.
    fn now_us(&self) -> u64 {
        unix_time_micros()
    }
}

/// Reason why an interceptor dropped a packet.
#[derive(Debug, Clone, Copy, PartialEq, Eq, Structural)]
pub enum InterceptReason {
    /// Simulated packet loss.
    PacketDrop,
    /// Simulated network partition.
    NetworkPartition,
}

/// Hook on the receive and send paths of every packet.
pub trait PacketInterceptor: Send + Sync + 'static {
    /// Inspects or mutates an inbound packet; an error drops it.
    fn on_receive(&self, packet: &mut PacketBuffer) -> Result<(), InterceptReason>;

    /// Inspects an outbound packet and returns the microseconds to delay it.
    fn on_send(&self, packet: &TransportPacket) -> u64;
}

/// Interceptor that lets every packet through unchanged and undelayed.
#[derive(Debug, Clone, Copy, Default)]
pub struct NullInterceptor;

impl PacketInterceptor for NullInterceptor {
    /// Accepts the packet.
    fn on_receive(&self, packet: &mut PacketBuffer) -> (r: Result<(), InterceptReason>)
        ensures
            r is Ok,
    {
        Ok(())
    }

    /// No delay.
    fn on_send(&self, packet: &TransportPacket) -> (r: u64)
        ensures
            r == 0,
    {
        0
    }
}

} // verus!
