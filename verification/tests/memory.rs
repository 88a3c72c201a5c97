use laplace_interfaces::domain::memory::{
    Address, ConsistencyModel, CoreId, MemoryConfig, MemoryOp, StoreEntry, Value,
};
use laplace_interfaces::domain::pool::{HealthStatus, StorageStrategy};
use laplace_interfaces::domain::runtime::RuntimeStats;

#[test]
fn memory_identifiers_display() {
    assert_eq!(Address::new(255).to_display_string(), "0xff");
    assert_eq!(Address::from(16).as_usize(), 16);
    assert_eq!(Value::new(42).to_display_string(), "42");
    assert_eq!(Value::from(7).as_u64(), 7);
    assert_eq!(CoreId::new(1).to_display_string(), "Core(1)");
    assert_eq!(CoreId::from(3).as_usize(), 3);
}

#[test]
fn memory_op_display() {
    let w = MemoryOp::Write { core: CoreId(0), addr: Address(0x10), val: Value(7) };
    assert_eq!(w.to_display_string(), "Write(core=Core(0), addr=0x10, val=7)");
    let r = MemoryOp::Read { core: CoreId(2), addr: Address(0) };
    assert_eq!(r.to_display_string(), "Read(core=Core(2), addr=0x0)");
    let f = MemoryOp::Fence { core: CoreId(1) };
    assert_eq!(f.to_display_string(), "Fence(core=Core(1))");
}

#[test]
fn store_entry_and_config() {
    let e = StoreEntry::new(Address(4), Value(9));
    assert_eq!(e.addr, Address(4));
    assert_eq!(e.val, Value(9));
    let c = MemoryConfig::default();
    assert_eq!(c.num_cores, 2);
    assert_eq!(c.max_buffer_size, 2);
    assert_eq!(c.consistency_model, ConsistencyModel::Relaxed);
    assert_eq!(c.initial_size, 1024);
}

#[test]
fn storage_strategy_properties() {
    assert_eq!(StorageStrategy::Standard.expected_latency_ns(), 41_500);
    assert_eq!(StorageStrategy::Turbo.expected_latency_ns(), 500);
    assert!(StorageStrategy::Turbo.is_zero_copy());
    assert!(!StorageStrategy::Standard.is_zero_copy());
    assert_eq!(StorageStrategy::Standard.name(), "Standard-FFI");
    assert_eq!(StorageStrategy::Turbo.to_display_string(), "Turbo-ZeroCopy");
}

#[test]
fn health_status_reasons() {
    let h = HealthStatus::Healthy;
    assert!(h.is_healthy() && !h.is_degraded() && !h.is_unhealthy());
    assert_eq!(h.reason(), None);
    let d = HealthStatus::Degraded { reason: "slow".to_string() };
    assert!(d.is_degraded() && !d.is_healthy());
    assert_eq!(d.reason(), Some("slow"));
    let u = HealthStatus::Unhealthy { reason: "down".to_string() };
    assert!(u.is_unhealthy());
    assert_eq!(u.reason(), Some("down"));
}

#[test]
fn runtime_stats_creation() {
    let stats = RuntimeStats::new();
    assert_eq!(stats.isolate_count, 0);
    assert_eq!(stats.total_requests, 0);
    assert_eq!(stats.active_isolates, 0);
}

#[test]
fn runtime_stats_default() {
    let stats = RuntimeStats::default();
    assert_eq!(stats.isolate_count, 0);
    assert_eq!(stats.total_requests, 0);
    assert_eq!(stats.heap_bytes, 0);
}
