use laplace_interfaces::error::codes::LaplaceError;
use laplace_interfaces::error::transport::TransportError as CoreTransportError;
use laplace_interfaces::domain::transport::TransportError;

#[test]
fn error_code_round_trip() {
    let err = LaplaceError::AbiMismatch;
    let code = err.code();
    let recovered = LaplaceError::from_code(code);
    assert_eq!(err, recovered);
}

#[test]
fn error_messages_non_empty() {
    for code in [
        LaplaceError::Success,
        LaplaceError::Timeout,
        LaplaceError::QuotaExceeded,
    ] {
        assert!(!code.message().is_empty());
    }
}

#[test]
fn retryable_errors() {
    assert!(LaplaceError::Timeout.is_retryable());
    assert!(LaplaceError::NetworkError.is_retryable());
    assert!(!LaplaceError::Unauthorized.is_retryable());
}

#[test]
fn resource_errors() {
    assert!(LaplaceError::QuotaExceeded.is_resource_error());
    assert!(LaplaceError::OutOfMemory.is_resource_error());
    assert!(!LaplaceError::Timeout.is_resource_error());
}

#[test]
fn forward_compatibility() {
    let unknown = LaplaceError::from_code(9999);
    assert_eq!(unknown, LaplaceError::Internal);
}

#[test]
fn error_types_accessible() {
    let _error = laplace_interfaces::LaplaceError::Internal;
}

#[test]
fn laplace_error_display() {
    assert_eq!(
        LaplaceError::AbiMismatch.to_display_string(),
        "LaplaceError::AbiMismatch (0x03ea): ABI version mismatch"
    );
    assert_eq!(
        LaplaceError::Success.to_display_string(),
        "LaplaceError::Success (0x0000): Success"
    );
    assert_eq!(
        LaplaceError::SchedulerError.to_display_string(),
        "LaplaceError::SchedulerError (0x1772): Scheduler error"
    );
}

#[test]
fn all_codes_round_trip() {
    let codes = [
        0u32, 1000, 1001, 1002, 1003, 1004, 2000, 2001, 2002, 2003, 3000, 3001, 3002, 3003,
        3004, 4000, 4001, 4002, 4003, 4004, 5000, 5001, 5002, 6000, 6001, 6002,
    ];
    for c in codes {
        assert_eq!(LaplaceError::from_code(c).code(), c);
    }
    assert_eq!(LaplaceError::from_code(1005), LaplaceError::Internal);
    assert_eq!(LaplaceError::from_code(u32::MAX), LaplaceError::Internal);
}

#[test]
fn pool_exhausted_is_retryable_resource_error() {
    assert!(LaplaceError::PoolExhausted.is_retryable());
    assert!(LaplaceError::PoolExhausted.is_resource_error());
    assert!(!LaplaceError::OutOfMemory.is_retryable());
}

#[test]
fn domain_transport_errors_map_to_laplace_codes() {
    let cases = [
        (TransportError::ConnectionClosed, 5001),
        (TransportError::StreamError, 5000),
        (TransportError::InvalidConfig, 4001),
        (TransportError::IoError, 5000),
        (TransportError::TlsError, 4000),
        (TransportError::Timeout, 2000),
    ];
    for (e, code) in cases {
        assert_eq!(e.to_error_code(), code);
        assert_eq!(LaplaceError::from_code(code).code(), code);
    }
    assert_eq!(TransportError::IoError.to_display_string(), "I/O error");
}

#[test]
fn core_transport_error_codes() {
    assert_eq!(CoreTransportError::ConnectionClosed.to_error_code(), 2001);
    assert_eq!(CoreTransportError::Timeout.to_error_code(), 2006);
    assert_eq!(
        CoreTransportError::TlsError.to_display_string(),
        "TLS handshake failed"
    );
}
