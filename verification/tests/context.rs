use laplace_interfaces::domain::context::SovereignContext;
use laplace_interfaces::domain::scheduling::PriorityLevel;
use laplace_interfaces::domain::tenant::TenantTier;

#[test]
fn sovereign_context_creation() {
    let ctx = SovereignContext::new(
        "req-123".to_string(),
        "tenant-1".to_string(),
        "trace-abc".to_string(),
    );
    assert!(ctx.is_valid());
    assert!(!ctx.is_turbo_mode);
    assert_eq!(ctx.priority, 3); // High
    assert_eq!(ctx.tier, 1); // Standard
    assert!(!ctx.has_turbo_slot());
}

#[test]
fn sovereign_context_turbo() {
    let ctx = SovereignContext::new_turbo(
        "req-456".to_string(),
        "tenant-2".to_string(),
        "trace-def".to_string(),
    );
    assert!(ctx.is_valid());
    assert!(ctx.is_turbo_mode);
    assert_eq!(ctx.tier, 2); // Turbo
}

#[test]
fn context_spawn_child() {
    let parent = SovereignContext::new(
        "parent".to_string(),
        "t1".to_string(),
        "trace-1".to_string(),
    )
    .with_priority(4)
    .with_tier(TenantTier::Pro);

    let child = parent.spawn_child("child".to_string());
    assert_eq!(child.tenant_id, parent.tenant_id);
    assert_eq!(child.trace_id, parent.trace_id);
    assert_eq!(child.priority, parent.priority);
    assert_eq!(child.tier, parent.tier);
    assert_ne!(child.request_id, parent.request_id);
    assert!(!child.has_turbo_slot());
}

#[test]
fn context_validity_checks() {
    // Valid context
    let valid =
        SovereignContext::new("req".to_string(), "tenant".to_string(), "trace".to_string());
    assert!(valid.is_valid());

    // Invalid: empty request_id
    let mut invalid = valid.clone();
    invalid.request_id = String::new();
    assert!(!invalid.is_valid());

    // Invalid: priority out of range
    let mut invalid = valid.clone();
    invalid.priority = 6;
    assert!(!invalid.is_valid());

    // Invalid: tier out of range
    let mut invalid = valid.clone();
    invalid.tier = 5;
    assert!(!invalid.is_valid());

    // Invalid: turbo mode without turbo tier
    let mut invalid = valid.clone();
    invalid.is_turbo_mode = true;
    invalid.tier = TenantTier::Free.as_u8();
    assert!(!invalid.is_valid());
}

#[test]
fn turbo_slot_management() {
    let mut ctx = SovereignContext::new_turbo(
        "req".to_string(),
        "tenant".to_string(),
        "trace".to_string(),
    );
    assert!(!ctx.has_turbo_slot());
    assert_eq!(ctx.get_turbo_slot(), None);

    ctx = ctx.allocate_turbo_slot(42);
    assert!(ctx.has_turbo_slot());
    assert_eq!(ctx.get_turbo_slot(), Some(42));
}

#[test]
fn builders_keep_context_valid() {
    let ctx = SovereignContext::new("r".to_string(), "t".to_string(), "x".to_string())
        .with_priority(5)
        .with_tier(TenantTier::Enterprise)
        .allocate_turbo_slot(7);
    assert!(ctx.is_valid());
    assert_eq!(ctx.priority_level(), Some(PriorityLevel::SystemCritical));
    assert_eq!(ctx.tenant_tier(), Some(TenantTier::Enterprise));
    let child = ctx.spawn_child("c".to_string());
    assert!(child.is_valid());
    assert_eq!(child.get_turbo_slot(), None);
}

#[test]
fn elapsed_since_saturates_at_zero() {
    let mut ctx = SovereignContext::new("r".to_string(), "t".to_string(), "x".to_string());
    ctx.timestamp = 1_000;
    assert_eq!(ctx.elapsed_since(1_500), 500);
    assert_eq!(ctx.elapsed_since(900), 0);
}

#[test]
fn default_context_is_valid_and_normal() {
    let ctx = SovereignContext::default();
    assert!(ctx.is_valid());
    assert_eq!(ctx.priority_level(), Some(PriorityLevel::Normal));
}

#[test]
fn context_description_lists_fields() {
    let ctx = SovereignContext::new("r".to_string(), "t".to_string(), "x".to_string());
    assert_eq!(
        ctx.describe(5),
        "SovereignContext { req_id: r, tenant: t, trace: x, priority: High, tier: Standard, turbo: false, turbo_slot: None, elapsed: 5ns }"
    );
    let mut odd = ctx.allocate_turbo_slot(9);
    odd.priority = 7;
    odd.tier = 9;
    assert_eq!(
        odd.describe(0),
        "SovereignContext { req_id: r, tenant: t, trace: x, priority: Invalid(7), tier: Invalid(9), turbo: false, turbo_slot: 9, elapsed: 0ns }"
    );
}
