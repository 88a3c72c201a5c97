//! Domain model: the business classifications, identifiers and state types shared
//! across the platform.

pub mod context;
pub mod entropy;
pub mod kraken;
pub mod memory;
pub mod pool;
pub mod resource;
pub mod runtime;
pub mod scheduler;
pub mod scheduling;
pub mod tenant;
pub mod time;
pub mod tracing;
pub mod transport;
pub mod tui;

pub use context::{SovereignContext, NO_TURBO_SLOT};
pub use entropy::{ContextId, Entropy, GlobalSeedConfig, LocalSeed, SeedAssignment};
pub use memory::{
    Address, ConfigurableBackend, ConsistencyModel, CoreId, MemoryBackend, MemoryConfig, MemoryOp,
    StoreEntry, Value,
};
pub use pool::{HealthStatus, StorageStrategy};
pub use resource::{
    RequestResult, ResourceError, ResourceId, ResourceTracker, ResourceType, ResourceUsage,
    ThreadId, ThreadStatus,
};
pub use runtime::RuntimeStats;
pub use scheduler::{SchedulerBackend, SchedulerError, SchedulingStrategy, TaskId, ThreadState};
pub use scheduling::PriorityLevel;
pub use tenant::TenantTier;
pub use transport::{
    HttpMethod, NetworkClockProvider, PacketInterceptor, TransportError, TransportHandle,
    TransportPacket, VirtualRequest, VirtualResponse, VUID,
};
pub use tui::{PanelType, Tier, TuiCapabilities};
