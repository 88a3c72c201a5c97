use laplace_interfaces::domain::tenant::TenantTier;

#[test]
fn tier_hierarchy() {
    assert_eq!(TenantTier::Free.as_u8(), 0);
    assert_eq!(TenantTier::Standard.as_u8(), 1);
    assert_eq!(TenantTier::Turbo.as_u8(), 2);
    assert_eq!(TenantTier::Pro.as_u8(), 3);
    assert_eq!(TenantTier::Enterprise.as_u8(), 4);
}

#[test]
fn turbo_acceleration_feature_flag() {
    assert!(!TenantTier::Free.uses_turbo_acceleration());
    assert!(!TenantTier::Standard.uses_turbo_acceleration());

    assert!(TenantTier::Turbo.uses_turbo_acceleration());
    assert!(TenantTier::Pro.uses_turbo_acceleration());
    assert!(TenantTier::Enterprise.uses_turbo_acceleration());
}

#[test]
fn sentinel_monitoring_feature_flag() {
    assert!(!TenantTier::Free.has_sentinel_monitoring());
    assert!(!TenantTier::Standard.has_sentinel_monitoring());
    assert!(!TenantTier::Turbo.has_sentinel_monitoring());
    assert!(!TenantTier::Pro.has_sentinel_monitoring());
    assert!(TenantTier::Enterprise.has_sentinel_monitoring());
}

#[test]
fn tier_parsing() {
    assert_eq!(TenantTier::from_u8(0), Some(TenantTier::Free));
    assert_eq!(TenantTier::from_u8(2), Some(TenantTier::Turbo));
    assert_eq!(TenantTier::from_u8(4), Some(TenantTier::Enterprise));
    assert_eq!(TenantTier::from_u8(5), None);
    assert_eq!(TenantTier::from_u8(255), None);
}

#[test]
fn tier_names() {
    assert_eq!(TenantTier::Free.name(), "Free");
    assert_eq!(TenantTier::Turbo.name(), "Turbo");
    assert_eq!(TenantTier::Enterprise.to_display_string(), "Enterprise");
}

#[test]
fn upgrade_validation() {
    let free = TenantTier::Free;
    let standard = TenantTier::Standard;
    let turbo = TenantTier::Turbo;

    assert!(free.can_upgrade_to(standard));
    assert!(free.can_upgrade_to(turbo));
    assert!(standard.can_upgrade_to(TenantTier::Enterprise));

    assert!(!turbo.can_upgrade_to(standard));
    assert!(!standard.can_upgrade_to(free));
    assert!(!turbo.can_upgrade_to(turbo));
}

#[test]
fn tier_progression() {
    assert_eq!(TenantTier::Free.next_tier(), Some(TenantTier::Standard));
    assert_eq!(TenantTier::Standard.next_tier(), Some(TenantTier::Turbo));
    assert_eq!(TenantTier::Turbo.next_tier(), Some(TenantTier::Pro));
    assert_eq!(TenantTier::Pro.next_tier(), Some(TenantTier::Enterprise));
    assert_eq!(TenantTier::Enterprise.next_tier(), None);

    assert_eq!(TenantTier::Free.previous_tier(), None);
    assert_eq!(TenantTier::Standard.previous_tier(), Some(TenantTier::Free));
    assert_eq!(
        TenantTier::Enterprise.previous_tier(),
        Some(TenantTier::Pro)
    );
}

#[test]
fn default_tier() {
    assert_eq!(TenantTier::default(), TenantTier::Free);
}

#[test]
fn tier_tier_ordering() {
    assert!(TenantTier::Free < TenantTier::Enterprise);
    assert!(TenantTier::Pro > TenantTier::Standard);
    assert!(TenantTier::Turbo >= TenantTier::Turbo);
}

#[test]
fn tier_codes_round_trip() {
    for code in 0u8..=4 {
        let tier = TenantTier::from_u8(code).unwrap();
        assert_eq!(tier.as_u8(), code);
    }
}

#[test]
fn supports_turbo_matches_acceleration_flag() {
    for code in 0u8..=4 {
        let tier = TenantTier::from_u8(code).unwrap();
        assert_eq!(tier.supports_turbo(), tier.uses_turbo_acceleration());
    }
}

#[test]
fn next_then_previous_is_identity() {
    for code in 0u8..=3 {
        let tier = TenantTier::from_u8(code).unwrap();
        let next = tier.next_tier().unwrap();
        assert_eq!(next.previous_tier(), Some(tier));
        assert!(tier.can_upgrade_to(next));
    }
}
