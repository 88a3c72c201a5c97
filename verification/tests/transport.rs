use laplace_interfaces::clock::epoch_reading_to_u64;
use laplace_interfaces::domain::transport::pluggable::{
    InterceptReason, NetworkClockProvider, NullInterceptor, PacketBuffer, PacketInterceptor,
    WallClockProvider,
};
use laplace_interfaces::domain::transport::types::{
    HeaderMap, HttpMethod, TransportPacket, VirtualRequest, VirtualResponse, VUID,
};

#[test]
fn transport_packet_creation() {
    let data = vec![1, 2, 3, 4, 5];
    let ptr_before = data.as_ptr();
    let packet = TransportPacket::new(data, 42);

    assert_eq!(packet.connection_id, 42);
    assert_eq!(packet.len(), 5);
    assert_eq!(packet.data.as_ptr(), ptr_before);
    assert!(!packet.is_empty());
}

#[test]
fn http_method_display() {
    assert_eq!(HttpMethod::Get.to_display_string(), "GET");
    assert_eq!(HttpMethod::Post.to_display_string(), "POST");
}

#[test]
fn http_method_idempotent() {
    assert!(HttpMethod::Get.is_idempotent());
    assert!(!HttpMethod::Post.is_idempotent());
}

#[test]
fn virtual_request_creation() {
    let vu_id = VUID::new(1);
    let request = VirtualRequest::new(vu_id, HttpMethod::Get, "/api/users", 100);
    assert_eq!(request.vu_id, vu_id);
    assert_eq!(request.method, HttpMethod::Get);
}

#[test]
fn virtual_response_ok() {
    let response = VirtualResponse::ok(50);
    assert!(response.is_success());
}

#[test]
fn vuid_creation_and_display() {
    let vu = VUID::new(42);
    assert_eq!(vu.as_u64(), 42);
    assert_eq!(vu.to_display_string(), "VU#42");
}

#[test]
fn wall_clock_provider_returns_nonzero() {
    let clock = WallClockProvider;
    assert!(clock.now_us() > 0, "wall clock should be past Unix epoch");
}

#[test]
fn null_interceptor_passes_all_packets() {
    let interceptor = NullInterceptor;
    let mut packet = PacketBuffer::new(vec![1, 2, 3], 1);
    assert!(interceptor.on_receive(&mut packet).is_ok());
    assert_eq!(interceptor.on_send(&packet), 0);
}

#[test]
fn intercept_reason_variants_are_distinct() {
    assert_ne!(
        InterceptReason::PacketDrop,
        InterceptReason::NetworkPartition
    );
}

#[test]
fn empty_packet_is_empty() {
    let packet = TransportPacket::new(Vec::new(), 7);
    assert!(packet.is_empty());
    assert_eq!(packet.len(), 0);
    assert_eq!(packet.stream_id, None);
}

#[test]
fn safe_methods_and_idempotence() {
    let all = [
        HttpMethod::Get,
        HttpMethod::Post,
        HttpMethod::Put,
        HttpMethod::Delete,
        HttpMethod::Patch,
        HttpMethod::Head,
        HttpMethod::Options,
    ];
    let safe: Vec<HttpMethod> = all.iter().copied().filter(|m| m.is_safe()).collect();
    assert_eq!(safe, vec![HttpMethod::Get, HttpMethod::Head, HttpMethod::Options]);
    for m in all {
        if m.is_safe() {
            assert!(m.is_idempotent());
        }
    }
    assert!(HttpMethod::Options.is_idempotent());
    assert!(HttpMethod::Put.is_idempotent());
    assert!(!HttpMethod::Patch.is_idempotent());
    assert_eq!(HttpMethod::Options.to_display_string(), "OPTIONS");
}

#[test]
fn headers_last_insert_wins() {
    let request = VirtualRequest::new(VUID::new(3), HttpMethod::Post, "/x", 9)
        .with_header("a", "1")
        .with_header("b", "2")
        .with_header("a", "3")
        .with_body(vec![9, 9]);
    assert_eq!(request.get_header("a").map(|s| s.as_str()), Some("3"));
    assert_eq!(request.get_header("b").map(|s| s.as_str()), Some("2"));
    assert_eq!(request.get_header("c"), None);
    assert_eq!(request.headers.len(), 2);
    assert_eq!(request.body, Some(vec![9, 9]));
    assert_eq!(request.path, "/x");
    assert_eq!(request.sent_at_tick, 9);
}

#[test]
fn header_map_insert_and_get() {
    let mut headers = HeaderMap::new();
    assert_eq!(headers.len(), 0);
    headers.insert("k".to_string(), "v".to_string());
    headers.insert("k".to_string(), "w".to_string());
    assert_eq!(headers.len(), 1);
    assert_eq!(headers.get("k").map(|s| s.as_str()), Some("w"));
}

#[test]
fn response_status_classes() {
    assert_eq!(VirtualResponse::created(1).status, 201);
    assert!(VirtualResponse::created(1).is_success());
    assert!(VirtualResponse::bad_request(1).is_client_error());
    assert!(VirtualResponse::not_found(1).is_client_error());
    assert!(VirtualResponse::server_error(1).is_server_error());
    assert!(!VirtualResponse::server_error(1).is_success());
    let r = VirtualResponse::new(302, 4).with_header("Location", "/y").with_body(vec![1]);
    assert!(!r.is_success() && !r.is_client_error() && !r.is_server_error());
    assert_eq!(r.get_header("Location").map(|s| s.as_str()), Some("/y"));
    assert_eq!(r.latency_ticks, 4);
}

#[test]
fn epoch_readings_become_u64() {
    assert_eq!(epoch_reading_to_u64(None), 0);
    assert_eq!(epoch_reading_to_u64(Some(42)), 42);
    assert_eq!(epoch_reading_to_u64(Some((1u128 << 64) + 5)), 5);
}
