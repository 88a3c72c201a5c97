use laplace_interfaces::domain::resource::{
    ResourceError, ResourceId, ResourceType, ResourceUsage, ThreadId,
};

#[test]
fn resource_identifiers_display() {
    assert_eq!(ThreadId::new(3).to_display_string(), "t3");
    assert_eq!(ThreadId::new(3).as_usize(), 3);
    assert_eq!(ResourceId::new(12).to_display_string(), "r12");
    assert_eq!(ResourceId::new(12).as_usize(), 12);
}

#[test]
fn resource_limits_per_tier() {
    assert_eq!(ResourceType::CpuMicroseconds.default_limit_free(), 100_000);
    assert_eq!(ResourceType::MemoryBytes.default_limit_free(), 32 * 1024 * 1024);
    assert_eq!(ResourceType::ConcurrentRequests.default_limit_pro(), 100);
    assert_eq!(ResourceType::StorageBytes.default_limit_pro(), 10 * 1024 * 1024 * 1024);
    assert_eq!(
        ResourceType::StorageBytes.default_limit_enterprise(),
        1024 * 1024 * 1024 * 1024
    );
    for r in [
        ResourceType::CpuMicroseconds,
        ResourceType::MemoryBytes,
        ResourceType::NetworkBytes,
        ResourceType::ConcurrentRequests,
        ResourceType::StorageBytes,
    ] {
        assert!(r.default_limit_free() <= r.default_limit_pro());
        assert!(r.default_limit_pro() <= r.default_limit_enterprise());
    }
    assert_eq!(ResourceType::ConcurrentRequests.to_display_string(), "Concurrency");
}

#[test]
fn resource_error_display() {
    assert_eq!(
        ResourceError::InvalidThreadId(ThreadId(9)).to_display_string(),
        "Invalid thread ID: t9"
    );
    assert_eq!(
        ResourceError::InvalidResourceId(ResourceId(4)).to_display_string(),
        "Invalid resource ID: r4"
    );
    assert_eq!(
        ResourceError::AlreadyOwned { thread: ThreadId(1), resource: ResourceId(2) }
            .to_display_string(),
        "Thread t1 already owns resource r2"
    );
    assert_eq!(
        ResourceError::NotOwned { thread: ThreadId(1), resource: ResourceId(2) }
            .to_display_string(),
        "Thread t1 does not own resource r2"
    );
    assert_eq!(
        ResourceError::DeadlockDetected { cycle: vec![ThreadId(0), ThreadId(2), ThreadId(0)] }
            .to_display_string(),
        "Deadlock detected! Cycle: t0 -> t2 -> t0"
    );
    assert_eq!(
        ResourceError::DeadlockDetected { cycle: vec![] }.to_display_string(),
        "Deadlock detected! Cycle: "
    );
    assert_eq!(
        ResourceError::ResourceLeak {
            thread: ThreadId(5),
            held_resources: vec![ResourceId(1), ResourceId(3)],
        }
        .to_display_string(),
        "Thread t5 finished with resources: r1, r3"
    );
}

#[test]
fn resource_usage_free_tier_check() {
    let mut u = ResourceUsage::new("tenant");
    assert_eq!(u.tenant_id, "tenant");
    assert!(u.is_within_free_tier());
    u.cpu_used_us = 100_000;
    u.concurrent_requests = 5;
    assert!(u.is_within_free_tier());
    u.storage_used_bytes = 100 * 1024 * 1024;
    assert!(u.is_within_free_tier());
    u.storage_used_bytes = 100 * 1024 * 1024 + 1;
    assert!(!u.is_within_free_tier());
    u.storage_used_bytes = 0;
    u.concurrent_requests = 6;
    assert!(!u.is_within_free_tier());
    let d = ResourceUsage::default();
    assert_eq!(d.tenant_id, "unknown");
    assert_eq!(d.memory_used_bytes, 0);
}
