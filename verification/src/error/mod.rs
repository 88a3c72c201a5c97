//! Error taxonomy: the FFI error codes and the domain errors that map onto them.

pub mod codes;
pub mod kraken;
pub mod tenant;
pub mod transport;

pub use codes::{LaplaceError, LaplaceResult};
pub use kraken::{KrakenError, KrakenResult};
pub use tenant::TenantError;
pub use transport::TransportError;
