use laplace_interfaces::domain::tenant::TenantTier;
use laplace_interfaces::error::tenant::TenantError;

#[test]
fn error_codes() {
    assert_eq!(TenantError::NotFound("x".into()).to_proto_code(), 1001);
    assert_eq!(TenantError::Inactive("x".into()).to_proto_code(), 1002);
    assert_eq!(TenantError::InvalidId("x".into()).to_proto_code(), 1003);

    assert_eq!(TenantError::QuotaExceeded("x".into()).to_proto_code(), 2001);
    assert_eq!(
        TenantError::AcquireTimeout("x".into()).to_proto_code(),
        2002
    );
    assert_eq!(
        TenantError::ExecutionTimeout {
            tenant_id: "x".into(),
            limit_ms: 100,
            elapsed_ms: 150
        }
        .to_proto_code(),
        2003
    );

    assert_eq!(
        TenantError::TurboPoolExhausted {
            tenant_id: "x".into(),
            available: 0,
            required: 1
        }
        .to_proto_code(),
        3001
    );
    assert_eq!(
        TenantError::TurboSlotStateError {
            tenant_id: "x".into(),
            expected: "idle".into(),
            actual: "active".into()
        }
        .to_proto_code(),
        3002
    );
    assert_eq!(
        TenantError::TurboSlotCorruption {
            tenant_id: "x".into()
        }
        .to_proto_code(),
        3003
    );

    assert_eq!(TenantError::Internal("x".into()).to_proto_code(), 9000);
}

#[test]
fn error_categories() {
    assert_eq!(
        TenantError::NotFound("x".into()).to_proto_category(),
        "CLIENT_ERROR"
    );
    assert_eq!(
        TenantError::QuotaExceeded("x".into()).to_proto_category(),
        "QUOTA_EXCEEDED"
    );
    assert_eq!(
        TenantError::RuntimeError("x".into()).to_proto_category(),
        "EXECUTION_ERROR"
    );
    assert_eq!(
        TenantError::TurboPoolExhausted {
            tenant_id: "x".into(),
            available: 0,
            required: 1
        }
        .to_proto_category(),
        "TURBO_ERROR"
    );
    assert_eq!(
        TenantError::Internal("x".into()).to_proto_category(),
        "INTERNAL_ERROR"
    );
}

#[test]
fn error_recoverability() {
    assert!(TenantError::QuotaExceeded("x".into()).is_recoverable());
    assert!(TenantError::AcquireTimeout("x".into()).is_recoverable());
    assert!(TenantError::TurboPoolExhausted {
        tenant_id: "x".into(),
        available: 0,
        required: 1
    }
    .is_recoverable());

    assert!(!TenantError::NotFound("x".into()).is_recoverable());
    assert!(!TenantError::TurboSlotCorruption {
        tenant_id: "x".into()
    }
    .is_recoverable());
}

#[test]
fn upgrade_suggestions() {
    assert!(TenantError::QuotaExceeded("x".into()).suggests_upgrade());
    assert!(TenantError::TurboNotAvailable {
        tenant_id: "x".into(),
        tier: TenantTier::Free
    }
    .suggests_upgrade());
    assert!(TenantError::ExecutionTimeout {
        tenant_id: "x".into(),
        limit_ms: 100,
        elapsed_ms: 150
    }
    .suggests_upgrade());

    assert!(!TenantError::NotFound("x".into()).suggests_upgrade());
    assert!(!TenantError::Internal("x".into()).suggests_upgrade());
}

#[test]
fn turbo_error_detection() {
    assert!(TenantError::TurboPoolExhausted {
        tenant_id: "x".into(),
        available: 0,
        required: 1
    }
    .is_turbo_error());

    assert!(TenantError::TurboSlotStateError {
        tenant_id: "x".into(),
        expected: "idle".into(),
        actual: "active".into()
    }
    .is_turbo_error());

    assert!(TenantError::TurboNotAvailable {
        tenant_id: "x".into(),
        tier: TenantTier::Standard
    }
    .is_turbo_error());

    assert!(!TenantError::QuotaExceeded("x".into()).is_turbo_error());
    assert!(!TenantError::RuntimeError("x".into()).is_turbo_error());
}

#[test]
fn tenant_id_extraction() {
    let err1 = TenantError::NotFound("tenant-123".into());
    assert_eq!(err1.extract_tenant_id(), "tenant-123");

    let err2 = TenantError::TurboPoolExhausted {
        tenant_id: "tenant-456".into(),
        available: 0,
        required: 1,
    };
    assert_eq!(err2.extract_tenant_id(), "tenant-456");

    let err3 = TenantError::Internal("some error".into());
    assert_eq!(err3.extract_tenant_id(), "unknown");
}

#[test]
fn error_display() {
    let err = TenantError::TurboPoolExhausted {
        tenant_id: "test".into(),
        available: 5,
        required: 10,
    };
    let msg = err.to_display_string();
    assert!(msg.contains("Turbo pool exhausted"));
    assert!(msg.contains("test"));
    assert!(msg.contains("5"));
    assert!(msg.contains("10"));
}

#[test]
fn error_display_exact_texts() {
    assert_eq!(
        TenantError::TurboPoolExhausted {
            tenant_id: "test".into(),
            available: 5,
            required: 10,
        }
        .to_display_string(),
        "Turbo pool exhausted for tenant test: 5 slots available, 10 required"
    );
    assert_eq!(
        TenantError::InvalidTierChange {
            current: TenantTier::Pro,
            requested: TenantTier::Free,
        }
        .to_display_string(),
        "Invalid tier change from Pro to Free"
    );
    assert_eq!(
        TenantError::ExecutionTimeout {
            tenant_id: "t".into(),
            limit_ms: 100,
            elapsed_ms: 150,
        }
        .to_display_string(),
        "Execution timeout for tenant t: 150ms exceeded limit of 100ms"
    );
}

#[test]
fn every_variant_has_code_and_category() {
    let errors = vec![
        (TenantError::InvalidTierChange { current: TenantTier::Pro, requested: TenantTier::Free }, 1004, "CLIENT_ERROR"),
        (TenantError::RuntimeError("x".into()), 2004, "EXECUTION_ERROR"),
        (TenantError::PathDenied("x".into()), 2005, "EXECUTION_ERROR"),
        (TenantError::TurboNotAvailable { tenant_id: "x".into(), tier: TenantTier::Free }, 3004, "TURBO_ERROR"),
        (TenantError::TurboAllocationFailed { tenant_id: "x".into(), reason: "r".into() }, 3005, "TURBO_ERROR"),
    ];
    for (e, code, category) in errors {
        assert_eq!(e.to_proto_code(), code);
        assert_eq!(e.to_proto_category(), category);
    }
}
