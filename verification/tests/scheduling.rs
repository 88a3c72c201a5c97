use laplace_interfaces::domain::scheduling::PriorityLevel;

#[test]
fn priority_level_validation() {
    assert_eq!(PriorityLevel::from_u8(0), Some(PriorityLevel::Lowest));
    assert_eq!(PriorityLevel::from_u8(3), Some(PriorityLevel::High));
    assert_eq!(
        PriorityLevel::from_u8(5),
        Some(PriorityLevel::SystemCritical)
    );
    assert_eq!(PriorityLevel::from_u8(6), None);
}

#[test]
fn priority_level_defaults() {
    assert_eq!(PriorityLevel::default(), PriorityLevel::Normal);
    assert_eq!(PriorityLevel::default().as_u8(), 2);
}

#[test]
fn priority_level_display() {
    assert_eq!(PriorityLevel::High.to_display_string(), "High");
    assert_eq!(PriorityLevel::SystemCritical.to_display_string(), "SystemCritical");
}

#[test]
fn priority_ordering() {
    assert!(PriorityLevel::Low < PriorityLevel::High);
    assert!(PriorityLevel::Critical > PriorityLevel::Normal);
    assert!(PriorityLevel::Lowest < PriorityLevel::SystemCritical);
}

#[test]
fn priority_codes_round_trip() {
    for code in 0u8..=5 {
        assert_eq!(PriorityLevel::from_u8(code).unwrap().as_u8(), code);
    }
    assert_eq!(PriorityLevel::from_u8(255), None);
}
