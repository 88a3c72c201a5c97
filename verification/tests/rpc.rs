use laplace_interfaces::rpc::{
    decode_request, decode_response, encode_json_request, encode_json_response,
    encode_request_frame, encode_response_frame, RequestFrameDecoder, ResponseFrameDecoder,
    RpcError, MAX_ACTION_LEN, MAX_BODY_LEN,
};

/// Feeds `bytes` to a request decoder in the chunk sizes it asks for.
fn read_request_frame(bytes: &[u8]) -> Result<(String, Vec<u8>), RpcError> {
    let mut d = RequestFrameDecoder::new();
    let mut pos = 0;
    while let Some(n) = d.bytes_needed() {
        assert!(pos + n <= bytes.len(), "frame truncated");
        d.feed(&bytes[pos..pos + n])?;
        pos += n;
    }
    assert!(d.is_complete());
    Ok(d.into_parts())
}

fn read_response_frame(bytes: &[u8]) -> Result<Vec<u8>, RpcError> {
    let mut d = ResponseFrameDecoder::new();
    let mut pos = 0;
    while let Some(n) = d.bytes_needed() {
        assert!(pos + n <= bytes.len(), "frame truncated");
        d.feed(&bytes[pos..pos + n])?;
        pos += n;
    }
    assert!(d.is_complete());
    d.finish()
}

#[test]
fn request_frame_layout() {
    let frame = encode_request_frame("ping", b"{}");
    assert_eq!(frame, vec![0, 0, 0, 4, b'p', b'i', b'n', b'g', 0, 0, 0, 2, b'{', b'}']);
}

#[test]
fn response_frame_layout() {
    assert_eq!(encode_response_frame(true, b"7"), vec![0, 0, 0, 0, 1, b'7']);
    assert_eq!(encode_response_frame(false, b""), vec![1, 0, 0, 0, 0]);
}

#[test]
fn request_round_trip() {
    let frame = encode_request_frame("tenant.get", b"{\"id\":1}");
    let (action, body) = read_request_frame(&frame).unwrap();
    assert_eq!(action, "tenant.get");
    assert_eq!(body, b"{\"id\":1}".to_vec());

    let frame = encode_request_frame("", b"");
    let (action, body) = read_request_frame(&frame).unwrap();
    assert_eq!(action, "");
    assert!(body.is_empty());
}

#[test]
fn response_round_trip() {
    let frame = encode_response_frame(true, b"[1,2]");
    assert_eq!(read_response_frame(&frame).unwrap(), b"[1,2]".to_vec());
}

#[test]
fn error_response_carries_server_message() {
    let frame = encode_response_frame(false, b"boom");
    match read_response_frame(&frame) {
        Err(RpcError::ServerError(m)) => assert_eq!(m, "boom"),
        other => panic!("unexpected {:?}", other),
    }
    let frame = encode_response_frame(false, &[b'a', 0xff, b'b']);
    match read_response_frame(&frame) {
        Err(RpcError::ServerError(m)) => assert_eq!(m, "a\u{fffd}b"),
        other => panic!("unexpected {:?}", other),
    }
}

#[test]
fn oversized_action_is_rejected() {
    let mut d = RequestFrameDecoder::new();
    let len = (MAX_ACTION_LEN as u32 + 1).to_be_bytes();
    match d.feed(&len) {
        Err(RpcError::Protocol(m)) => assert_eq!(m, "action too long"),
        other => panic!("unexpected {:?}", other),
    }
    assert_eq!(d.bytes_needed(), None);
    assert!(!d.is_complete());

    let mut d = RequestFrameDecoder::new();
    assert!(d.feed(&(MAX_ACTION_LEN as u32).to_be_bytes()).is_ok());
    assert_eq!(d.bytes_needed(), Some(MAX_ACTION_LEN));
}

#[test]
fn non_utf8_action_is_rejected() {
    let mut d = RequestFrameDecoder::new();
    assert!(d.feed(&[0, 0, 0, 1]).is_ok());
    match d.feed(&[0xff]) {
        Err(RpcError::Protocol(m)) => {
            assert_eq!(m, "invalid utf-8 sequence of 1 bytes from index 0")
        }
        other => panic!("unexpected {:?}", other),
    }
    assert_eq!(d.bytes_needed(), None);
}

#[test]
fn oversized_bodies_are_rejected() {
    let mut frame = vec![0, 0, 0, 1, b'a'];
    frame.extend_from_slice(&(MAX_BODY_LEN as u32 + 1).to_be_bytes());
    match read_request_frame(&frame) {
        Err(RpcError::Protocol(m)) => assert_eq!(m, "body too large"),
        other => panic!("unexpected {:?}", other),
    }
    let mut resp = vec![0];
    resp.extend_from_slice(&(MAX_BODY_LEN as u32 + 1).to_be_bytes());
    match read_response_frame(&resp) {
        Err(RpcError::Protocol(m)) => assert_eq!(m, "response too large"),
        other => panic!("unexpected {:?}", other),
    }
}

#[test]
fn body_at_the_limit_is_accepted() {
    let body = vec![b'x'; MAX_BODY_LEN];
    let frame = encode_response_frame(true, &body);
    assert_eq!(read_response_frame(&frame).unwrap().len(), MAX_BODY_LEN);
}

#[test]
fn rpc_error_display() {
    assert_eq!(RpcError::Tls("x".into()).to_display_string(), "TLS error: x");
    assert_eq!(RpcError::Bind("x".into()).to_display_string(), "Bind error: x");
    assert_eq!(RpcError::Connect("x".into()).to_display_string(), "Connect error: x");
    assert_eq!(RpcError::Stream("x".into()).to_display_string(), "Stream error: x");
    assert_eq!(RpcError::Protocol("x".into()).to_display_string(), "Protocol error: x");
    assert_eq!(RpcError::ServerError("x".into()).to_display_string(), "Server error: x");
}

fn feed_request(bytes: &[u8]) -> RequestFrameDecoder {
    let mut d = RequestFrameDecoder::new();
    let mut pos = 0;
    while let Some(n) = d.bytes_needed() {
        d.feed(&bytes[pos..pos + n]).unwrap();
        pos += n;
    }
    assert_eq!(pos, bytes.len());
    d
}

fn feed_response(bytes: &[u8]) -> ResponseFrameDecoder {
    let mut d = ResponseFrameDecoder::new();
    let mut pos = 0;
    while let Some(n) = d.bytes_needed() {
        d.feed(&bytes[pos..pos + n]).unwrap();
        pos += n;
    }
    assert_eq!(pos, bytes.len());
    d
}

#[test]
fn json_request_round_trip() {
    let body: serde_json::Value = serde_json::from_str("{\"id\":7,\"tags\":[\"a\"]}").unwrap();
    let frame = encode_json_request("tenant.get", &body).unwrap();
    assert_eq!(&frame[0..4], &[0, 0, 0, 10]);
    let (action, decoded) = decode_request(feed_request(&frame)).unwrap();
    assert_eq!(action, "tenant.get");
    assert_eq!(decoded, body);
}

#[test]
fn json_request_with_bad_body_is_protocol_error() {
    let frame = encode_request_frame("x", b"{not json");
    match decode_request(feed_request(&frame)) {
        Err(RpcError::Protocol(_)) => {}
        other => panic!("unexpected {:?}", other),
    }
}

#[test]
fn json_response_outcomes() {
    let body = serde_json::Value::from(vec![1, 2]);
    let ok = encode_json_response(true, &body).unwrap();
    assert_eq!(ok[0], 0);
    assert_eq!(decode_response(feed_response(&ok)).unwrap(), body);

    let err_body = serde_json::Value::from("boom");
    let failed = encode_json_response(false, &err_body).unwrap();
    match decode_response(feed_response(&failed)) {
        Err(RpcError::ServerError(m)) => assert_eq!(m, "\"boom\""),
        other => panic!("unexpected {:?}", other),
    }

    let garbage = encode_response_frame(true, b"[1,");
    match decode_response(feed_response(&garbage)) {
        Err(RpcError::Protocol(_)) => {}
        other => panic!("unexpected {:?}", other),
    }
}
