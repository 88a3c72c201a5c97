//! Wire protocol of the QUIC bi-stream RPC.
//!
//! A request frame is `[4 BE u32: action_len][action][4 BE u32: body_len][body]`;
//! a response frame is `[1 byte: 0 = ok, 1 = err][4 BE u32: body_len][body]`.
//! Encoding produces whole frames; decoding is incremental: a decoder says how many
//! bytes it needs next, is fed exactly that many, and fails as soon as a length
//! prefix exceeds its limit or the action is not UTF-8.

use vstd::prelude::*;
use vstd::utf8::*;
use vstd::string::StringSliceAdditionalSpecFns;
use vstd::slice::slice_subrange;
use vstd::slice::slice_to_vec;
use std::string::FromUtf8Error;
use serde_json::Value as JsonValue;
use serde_json::Error as JsonError;

verus! {

broadcast use vstd::utf8::group_utf8_lib;

/// Longest action name accepted in a request frame, in bytes.
pub const MAX_ACTION_LEN: usize = 256;

/// Longest body accepted in a request or response frame, in bytes.
pub const MAX_BODY_LEN: usize = 4194304;

/// Errors of the RPC transport.
#[derive(Debug)]
pub enum RpcError {
    Tls(String),
    Bind(String),
    Connect(String),
    Stream(String),
    Protocol(String),
    ServerError(String),
}

impl RpcError {
    /// The message of this error as displayed.
    pub open spec fn display(&self) -> Seq<char> {
        match self {
            RpcError::Tls(s) => "TLS error: "@ + s@,
            RpcError::Bind(s) => "Bind error: "@ + s@,
            RpcError::Connect(s) => "Connect error: "@ + s@,
            RpcError::Stream(s) => "Stream error: "@ + s@,
            RpcError::Protocol(s) => "Protocol error: "@ + s@,
            RpcError::ServerError(s) => "Server error: "@ + s@,
        }
    }

    /// Renders this error as text.
    pub fn to_display_string(&self) -> (r: String)
        ensures
            r@ == self.display(),
    {
        match self {
            RpcError::Tls(s) => String::from_str("TLS error: ").concat(s.as_str()),
            RpcError::Bind(s) => String::from_str("Bind error: ").concat(s.as_str()),
            RpcError::Connect(s) => String::from_str("Connect error: ").concat(s.as_str()),
            RpcError::Stream(s) => String::from_str("Stream error: ").concat(s.as_str()),
            RpcError::Protocol(s) => String::from_str("Protocol error: ").concat(s.as_str()),
            RpcError::ServerError(s) => String::from_str("Server error: ").concat(s.as_str()),
        }
    }
}

/// Why a frame was rejected while decoding.
#[derive(Debug, Clone, Copy, PartialEq, Eq, Structural)]
pub enum FrameFault {
    /// The action length prefix exceeds `MAX_ACTION_LEN`.
    ActionTooLong,
    /// The action bytes are not valid UTF-8.
    ActionNotUtf8,
    /// The request body length prefix exceeds `MAX_BODY_LEN`.
    BodyTooLarge,
    /// The response body length prefix exceeds `MAX_BODY_LEN`.
    ResponseTooLarge,
}

/// The error that a decoder reports for `fault`.
pub open spec fn fault_error(fault: FrameFault, e: RpcError) -> bool {
    match fault {
        FrameFault::ActionTooLong => e matches RpcError::Protocol(s) && s@ == "action too long"@,
        FrameFault::ActionNotUtf8 => e is Protocol,
        FrameFault::BodyTooLarge => e matches RpcError::Protocol(s) && s@ == "body too large"@,
        FrameFault::ResponseTooLarge => e matches RpcError::Protocol(s) && s@
            == "response too large"@,
    }
}

/// Big-endian bytes of `n`.
pub open spec fn be32_bytes(n: u32) -> Seq<u8> {
    seq![(n >> 24u32) as u8, (n >> 16u32) as u8, (n >> 8u32) as u8, n as u8]
}

/// The big-endian `u32` stored at `at..at + 4` in `b`.
pub open spec fn be32_value(b: Seq<u8>, at: int) -> u32 {
    ((b[at] as u32) << 24u32) | ((b[at + 1] as u32) << 16u32) | ((b[at + 2] as u32) << 8u32) | (
    b[at + 3] as u32)
}

/// The length field written for a payload of `len` bytes: the length truncated to 32 bits.
pub open spec fn length_field(len: nat) -> u32 {
    (len % 4294967296) as u32
}

/// The request frame carrying `action` and `body`.
pub open spec fn request_frame(action: Seq<u8>, body: Seq<u8>) -> Seq<u8> {
    be32_bytes(length_field(action.len())) + action + be32_bytes(length_field(body.len())) + body
}

/// The response frame carrying `body`, flagged as success when `ok`.
pub open spec fn response_frame(ok: bool, body: Seq<u8>) -> Seq<u8> {
    seq![if ok { 0u8 } else { 1u8 }] + be32_bytes(length_field(body.len())) + body
}

/// Decoding state of a request from the bytes `buf` read so far: how many more bytes
/// are needed next (0 once the frame is complete or rejected), and the fault, if any.
pub open spec fn request_status(buf: Seq<u8>) -> (nat, Option<FrameFault>) {
    if buf.len() < 4 {
        ((4 - buf.len()) as nat, None)
    } else {
        let a = be32_value(buf, 0) as int;
        if a > MAX_ACTION_LEN {
            (0, Some(FrameFault::ActionTooLong))
        } else if buf.len() < 4 + a {
            ((4 + a - buf.len()) as nat, None)
        } else if !valid_utf8(buf.subrange(4, 4 + a)) {
            (0, Some(FrameFault::ActionNotUtf8))
        } else if buf.len() < 8 + a {
            ((8 + a - buf.len()) as nat, None)
        } else {
            let b = be32_value(buf, 4 + a) as int;
            if b > MAX_BODY_LEN {
                (0, Some(FrameFault::BodyTooLarge))
            } else if buf.len() < 8 + a + b {
                ((8 + a + b - buf.len()) as nat, None)
            } else {
                (0, None)
            }
        }
    }
}

/// The action of a complete request read as `buf`.
pub open spec fn request_action(buf: Seq<u8>) -> Seq<char> {
    decode_utf8(buf.subrange(4, 4 + be32_value(buf, 0) as int))
}

/// The body of a complete request read as `buf`.
pub open spec fn request_body(buf: Seq<u8>) -> Seq<u8> {
    let a = be32_value(buf, 0) as int;
    buf.subrange(8 + a, 8 + a + be32_value(buf, 4 + a) as int)
}

/// Decoding state of a response from the bytes `buf` read so far, as for requests.
pub open spec fn response_status(buf: Seq<u8>) -> (nat, Option<FrameFault>) {
    if buf.len() < 1 {
        (1, None)
    } else if buf.len() < 5 {
        ((5 - buf.len()) as nat, None)
    } else {
        let n = be32_value(buf, 1) as int;
        if n > MAX_BODY_LEN {
            (0, Some(FrameFault::ResponseTooLarge))
        } else if buf.len() < 5 + n {
            ((5 + n - buf.len()) as nat, None)
        } else {
            (0, None)
        }
    }
}

/// The body of a complete response read as `buf`.
pub open spec fn response_body(buf: Seq<u8>) -> Seq<u8> {
    buf.subrange(5, 5 + be32_value(buf, 1) as int)
}

proof fn lemma_be32_roundtrip(n: u32)
    ensures
        be32_value(be32_bytes(n), 0) == n,
{
    let b = be32_bytes(n);
    assert(((((n >> 24u32) as u8) as u32) << 24u32) | ((((n >> 16u32) as u8) as u32) << 16u32) | (
    (((n >> 8u32) as u8) as u32) << 8u32) | ((n as u8) as u32) == n) by (bit_vector);
}

/// Writes the big-endian bytes of `n` at the end of `out`.
fn push_be32(out: &mut Vec<u8>, n: u32)
    ensures
        final(out)@ == old(out)@ + be32_bytes(n),
{
    out.push((n >> 24u32) as u8);
    out.push((n >> 16u32) as u8);
    out.push((n >> 8u32) as u8);
    out.push(n as u8);
}

/// Appends the bytes of `src` at the end of `out`.
fn push_all(out: &mut Vec<u8>, src: &[u8])
    ensures
        final(out)@ == old(out)@ + src@,
{
    let ghost start = out@;
    let mut i: usize = 0;
    while i < src.len()
        invariant
            i <= src@.len(),
            out@ == start + src@.subrange(0, i as int),
        decreases src@.len() - i,
    {
        out.push(src[i]);
        i = i + 1;
        assert(out@ =~= start + src@.subrange(0, i as int));
    }
    assert(src@.subrange(0, src@.len() as int) =~= src@);
}

/// The length field for a payload of `len` bytes.
fn length_field_of(len: usize) -> (r: u32)
    ensures
        r == length_field(len as nat),
{
    ((len as u64) % 4294967296u64) as u32
}

/// Encodes a request frame carrying `action` and the serialized `body`.
pub fn encode_request_frame(action: &str, body: &[u8]) -> (r: Vec<u8>)
    ensures
        r@ == request_frame(action.spec_bytes(), body@),
{
    let action_bytes = action.as_bytes();
    let mut out: Vec<u8> = Vec::new();
    push_be32(&mut out, length_field_of(action_bytes.len()));
    push_all(&mut out, action_bytes);
    push_be32(&mut out, length_field_of(body.len()));
    push_all(&mut out, body);
    out
}

/// Encodes a response frame carrying the serialized `body`, flagged as success when `ok`.
pub fn encode_response_frame(ok: bool, body: &[u8]) -> (r: Vec<u8>)
    ensures
        r@ == response_frame(ok, body@),
{
    let mut out: Vec<u8> = Vec::new();
    out.push(if ok { 0u8 } else { 1u8 });
    push_be32(&mut out, length_field_of(body.len()));
    push_all(&mut out, body);
    out
}

/// Reads the big-endian `u32` at `at..at + 4` of `v`.
fn be32_at(v: &Vec<u8>, at: usize) -> (r: u32)
    requires
        at + 4 <= v.len(),
    ensures
        r == be32_value(v@, at as int),
{
    ((v[at] as u32) << 24u32) | ((v[at + 1] as u32) << 16u32) | ((v[at + 2] as u32) << 8u32) | (
    v[at + 3] as u32)
}

/// Converts bytes to a string when they are valid UTF-8 (`String::from_utf8`).
#[verifier::external_body]
fn string_from_utf8(bytes: Vec<u8>) -> (r: Result<String, FromUtf8Error>)
    ensures
        r is Ok <==> valid_utf8(bytes@),
        r matches Ok(s) ==> s@ == decode_utf8(bytes@),
{
    String::from_utf8(bytes)
}

#[verifier::external_type_specification]
#[verifier::external_body]
pub struct ExFromUtf8Error(FromUtf8Error);

/// The text of a UTF-8 conversion error (`ToString::to_string` on `FromUtf8Error`).
#[verifier::external_body]
fn utf8_error_text(e: &FromUtf8Error) -> String {
    e.to_string()
}

/// Text decoded from `bytes`, with each invalid sequence replaced by U+FFFD.
pub uninterp spec fn utf8_lossy(bytes: Seq<u8>) -> Seq<char>;

/// Decodes bytes as UTF-8, replacing invalid sequences (`String::from_utf8_lossy`).
/// Valid UTF-8 is decoded unchanged, as the documentation of `from_utf8_lossy` states.
#[verifier::external_body]
fn string_from_utf8_lossy(bytes: &[u8]) -> (r: String)
    ensures
        r@ == utf8_lossy(bytes@),
        valid_utf8(bytes@) ==> r@ == decode_utf8(bytes@),
{
    String::from_utf8_lossy(bytes).into_owned()
}

/// Incremental decoder of one request frame.
pub struct RequestFrameDecoder {
    consumed: Vec<u8>,
    action: Option<String>,
}

impl View for RequestFrameDecoder {
    type V = Seq<u8>;

    /// The bytes fed so far.
    closed spec fn view(&self) -> Seq<u8> {
        self.consumed@
    }
}

impl RequestFrameDecoder {
    /// The cached action agrees with the bytes fed so far.
    pub closed spec fn wf(&self) -> bool {
        let buf = self.consumed@;
        let a = be32_value(buf, 0) as int;
        buf.len() >= 4 && a <= MAX_ACTION_LEN && buf.len() >= 4 + a ==> {
            &&& (self.action is Some <==> valid_utf8(buf.subrange(4, 4 + a)))
            &&& (self.action matches Some(s) ==> s@ == decode_utf8(buf.subrange(4, 4 + a)))
        }
    }

    /// A decoder that has read nothing yet.
    pub fn new() -> (r: Self)
        ensures
            r.wf(),
            r@ == Seq::<u8>::empty(),
    {
        RequestFrameDecoder { consumed: Vec::new(), action: None }
    }

    /// How many bytes to feed next; `None` once the frame is complete or rejected.
    pub fn bytes_needed(&self) -> (r: Option<usize>)
        requires
            self.wf(),
        ensures
            r matches Some(n) ==> n > 0 && n == request_status(self@).0,
            r is None <==> request_status(self@).0 == 0,
    {
        let len = self.consumed.len();
        if len < 4 {
            return Some(4 - len);
        }
        let a = be32_at(&self.consumed, 0) as usize;
        if a > MAX_ACTION_LEN {
            return None;
        }
        if len < 4 + a {
            return Some(4 + a - len);
        }
        if self.action.is_none() {
            return None;
        }
        if len < 8 + a {
            return Some(8 + a - len);
        }
        let b = be32_at(&self.consumed, 4 + a) as usize;
        if b > MAX_BODY_LEN {
            return None;
        }
        if len < 8 + a + b {
            return Some(8 + a + b - len);
        }
        None
    }

    /// Whether a whole, valid frame has been read.
    pub fn is_complete(&self) -> (r: bool)
        requires
            self.wf(),
        ensures
            r <==> request_status(self@) == (0nat, None::<FrameFault>),
    {
        let len = self.consumed.len();
        if len < 4 {
            return false;
        }
        let a = be32_at(&self.consumed, 0) as usize;
        if a > MAX_ACTION_LEN || len < 4 + a || self.action.is_none() || len < 8 + a {
            return false;
        }
        let b = be32_at(&self.consumed, 4 + a) as usize;
        b <= MAX_BODY_LEN && len >= 8 + a + b
    }

    /// Feeds the next `chunk` of the stream; fails when the frame is rejected.
    pub fn feed(&mut self, chunk: &[u8]) -> (r: Result<(), RpcError>)
        requires
            old(self).wf(),
            request_status(old(self)@).0 == chunk@.len(),
            chunk@.len() > 0,
        ensures
            final(self).wf(),
            final(self)@ == old(self)@ + chunk@,
            r is Ok <==> request_status(final(self)@).1 is None,
            r matches Err(e) ==> fault_error(request_status(final(self)@).1->Some_0, e),
    {
        let ghost old_buf = self.consumed@;
        push_all(&mut self.consumed, chunk);
        let len = self.consumed.len();
        let ghost buf = self.consumed@;
        assert(len >= 4);
        let a = be32_at(&self.consumed, 0) as usize;
        if a > MAX_ACTION_LEN {
            return Err(RpcError::Protocol(String::from_str("action too long")));
        }
        proof {
            if old_buf.len() >= 4 {
                assert(be32_value(old_buf, 0) == be32_value(buf, 0));
            }
            if old_buf.len() >= 4 + a {
                assert(buf.subrange(4, 4 + a as int) =~= old_buf.subrange(4, 4 + a as int));
            }
        }
        if len < 4 + a {
            return Ok(());
        }
        if len == 4 + a {
            let action_bytes = slice_to_vec(slice_subrange(self.consumed.as_slice(), 4, 4 + a));
            match string_from_utf8(action_bytes) {
                Ok(s) => {
                    self.action = Some(s);
                },
                Err(e) => {
                    self.action = None;
                    return Err(RpcError::Protocol(utf8_error_text(&e)));
                },
            }
        }
        if self.action.is_none() {
            return Err(RpcError::Protocol(String::from_str("action is not valid UTF-8")));
        }
        if len < 8 + a {
            return Ok(());
        }
        let b = be32_at(&self.consumed, 4 + a) as usize;
        if b > MAX_BODY_LEN {
            return Err(RpcError::Protocol(String::from_str("body too large")));
        }
        Ok(())
    }

    /// The action and body of a complete frame.
    pub fn into_parts(self) -> (r: (String, Vec<u8>))
        requires
            self.wf(),
            request_status(self@) == (0nat, None::<FrameFault>),
        ensures
            r.0@ == request_action(self@),
            r.1@ == request_body(self@),
    {
        let a = be32_at(&self.consumed, 0) as usize;
        let b = be32_at(&self.consumed, 4 + a) as usize;
        let body = slice_to_vec(slice_subrange(self.consumed.as_slice(), 8 + a, 8 + a + b));
        let action = match self.action {
            Some(s) => s,
            None => String::new(),
        };
        (action, body)
    }
}

/// Incremental decoder of one response frame.
pub struct ResponseFrameDecoder {
    consumed: Vec<u8>,
}

impl View for ResponseFrameDecoder {
    type V = Seq<u8>;

    /// The bytes fed so far.
    closed spec fn view(&self) -> Seq<u8> {
        self.consumed@
    }
}

impl ResponseFrameDecoder {
    /// A decoder that has read nothing yet.
    pub fn new() -> (r: Self)
        ensures
            r@ == Seq::<u8>::empty(),
    {
        ResponseFrameDecoder { consumed: Vec::new() }
    }

    /// How many bytes to feed next; `None` once the frame is complete or rejected.
    pub fn bytes_needed(&self) -> (r: Option<usize>)
        ensures
            r matches Some(n) ==> n > 0 && n == response_status(self@).0,
            r is None <==> response_status(self@).0 == 0,
    {
        let len = self.consumed.len();
        if len < 1 {
            return Some(1);
        }
        if len < 5 {
            return Some(5 - len);
        }
        let n = be32_at(&self.consumed, 1) as usize;
        if n > MAX_BODY_LEN {
            return None;
        }
        if len < 5 + n {
            return Some(5 + n - len);
        }
        None
    }

    /// Whether a whole, valid frame has been read.
    pub fn is_complete(&self) -> (r: bool)
        ensures
            r <==> response_status(self@) == (0nat, None::<FrameFault>),
    {
        let len = self.consumed.len();
        if len < 5 {
            return false;
        }
        let n = be32_at(&self.consumed, 1) as usize;
        n <= MAX_BODY_LEN && len >= 5 + n
    }

    /// Feeds the next `chunk` of the stream; fails when the frame is rejected.
    pub fn feed(&mut self, chunk: &[u8]) -> (r: Result<(), RpcError>)
        requires
            response_status(old(self)@).0 == chunk@.len(),
            chunk@.len() > 0,
        ensures
            final(self)@ == old(self)@ + chunk@,
            r is Ok <==> response_status(final(self)@).1 is None,
            r matches Err(e) ==> fault_error(response_status(final(self)@).1->Some_0, e),
    {
        let ghost old_buf = self.consumed@;
        push_all(&mut self.consumed, chunk);
        let len = self.consumed.len();
        if len < 5 {
            return Ok(());
        }
        proof {
            if old_buf.len() >= 5 {
                assert(be32_value(old_buf, 1) == be32_value(self.consumed@, 1));
            }
        }
        let n = be32_at(&self.consumed, 1) as usize;
        if n > MAX_BODY_LEN {
            return Err(RpcError::Protocol(String::from_str("response too large")));
        }
        Ok(())
    }

    /// The outcome of a complete frame: its body when the peer answered success,
    /// else the body read as text in a `ServerError`.
    pub fn finish(self) -> (r: Result<Vec<u8>, RpcError>)
        requires
            response_status(self@) == (0nat, None::<FrameFault>),
        ensures
            r is Ok <==> self@[0] == 0,
            r matches Ok(body) ==> body@ == response_body(self@),
            r matches Err(e) ==> e matches RpcError::ServerError(s) && s@ == utf8_lossy(
                response_body(self@),
            ),
    {
        let n = be32_at(&self.consumed, 1) as usize;
        let body = slice_subrange(self.consumed.as_slice(), 5, 5 + n);
        if self.consumed[0] != 0 {
            return Err(RpcError::ServerError(string_from_utf8_lossy(body)));
        }
        Ok(slice_to_vec(body))
    }
}

#[verifier::external_type_specification]
#[verifier::external_body]
pub struct ExJsonValue(JsonValue);

#[verifier::external_type_specification]
#[verifier::external_body]
pub struct ExJsonError(JsonError);

/// Whether `bytes` hold one JSON document, as `serde_json::from_slice` reads it into a
/// JSON value (trailing whitespace allowed, nothing else after it).
pub uninterp spec fn json_parses(bytes: Seq<u8>) -> bool;

/// Parses `bytes` as a JSON value (`serde_json::from_slice` into `serde_json::Value`).
/// Success depends on the bytes alone; the parsed value is not described.
#[verifier::external_body]
fn json_from_slice(bytes: &[u8]) -> (r: Result<JsonValue, JsonError>)
    ensures
        r is Ok <==> json_parses(bytes@),
{
    serde_json::from_slice::<JsonValue>(bytes)
}

/// Serializes a JSON value to bytes (`serde_json::to_vec`). It always succeeds: its
/// only failure causes are a `Serialize` impl that chooses to fail or a map with
/// non-string keys, and `serde_json::Value`'s impl never fails and keys its objects by
/// `String`. The bytes themselves are not described.
#[verifier::external_body]
fn json_to_vec(value: &JsonValue) -> (r: Result<Vec<u8>, JsonError>)
    ensures
        r is Ok,
{
    serde_json::to_vec(value)
}

/// The text of a JSON error (`ToString::to_string` on `serde_json::Error`); nothing is
/// stated of it.
#[verifier::external_body]
fn json_error_text(e: &JsonError) -> String {
    e.to_string()
}

/// Whether `bytes` are what serializing `body` writes (an outcome of `json_to_vec` on it).
pub closed spec fn is_serialization_of(body: &JsonValue, bytes: Seq<u8>) -> bool {
    exists|v: Vec<u8>| call_ensures(json_to_vec, (body,), Ok::<Vec<u8>, JsonError>(v)) && v@ == bytes
}

/// The JSON serialization of `body` (`serde_json::to_vec`, which cannot fail on a JSON
/// value): exactly the bytes the serializer writes, none dropped or added.
pub fn serialize_json(body: &JsonValue) -> (r: Vec<u8>)
    ensures
        is_serialization_of(body, r@),
{
    let out = json_to_vec(body);
    assert(call_ensures(json_to_vec, (body,), out));
    match out {
        Ok(bytes) => bytes,
        Err(_) => Vec::new(),
    }
}

/// Encodes a request frame carrying `action` and the JSON serialization of `body`;
/// serializing a JSON value always succeeds, and the frame body is exactly the bytes
/// `serialize_json(body)` gives.
pub fn encode_json_request(action: &str, body: &JsonValue) -> (r: Result<
    Vec<u8>,
    RpcError,
>)
    ensures
        r is Ok,
        r matches Ok(bytes) ==> exists|b: Seq<u8>|
            is_serialization_of(body, b) && bytes@ == request_frame(action.spec_bytes(), b),
{
    let body_bytes = serialize_json(body);
    let frame = encode_request_frame(action, body_bytes.as_slice());
    Ok(frame)
}

/// Encodes a response frame carrying the JSON serialization of `body`, flagged as
/// success when `ok`; serializing a JSON value always succeeds, and the frame body is
/// exactly the bytes `serialize_json(body)` gives.
pub fn encode_json_response(ok: bool, body: &JsonValue) -> (r: Result<
    Vec<u8>,
    RpcError,
>)
    ensures
        r is Ok,
        r matches Ok(bytes) ==> exists|b: Seq<u8>|
            is_serialization_of(body, b) && bytes@ == response_frame(ok, b),
{
    let body_bytes = serialize_json(body);
    let frame = encode_response_frame(ok, body_bytes.as_slice());
    Ok(frame)
}

/// Whether `value` is what parsing `bytes` gives (an outcome of `json_from_slice` on them).
pub closed spec fn is_parse_of(bytes: Seq<u8>, value: JsonValue) -> bool {
    exists|s: &[u8]| s@ == bytes && call_ensures(json_from_slice, (s,), Ok::<JsonValue, JsonError>(value))
}

/// The action and JSON body of a complete request frame; fails with a `Protocol` error
/// exactly when the body is not JSON. The value returned is the parse of the frame's body.
pub fn decode_request(d: RequestFrameDecoder) -> (r: Result<(String, JsonValue), RpcError>)
    requires
        d.wf(),
        request_status(d@) == (0nat, None::<FrameFault>),
    ensures
        r is Ok <==> json_parses(request_body(d@)),
        r matches Ok((a, _)) ==> a@ == request_action(d@),
        r matches Ok((_, v)) ==> is_parse_of(request_body(d@), v),
        r matches Err(e) ==> e is Protocol,
{
    let (action, body) = d.into_parts();
    let slice = body.as_slice();
    let parsed = json_from_slice(slice);
    assert(call_ensures(json_from_slice, (slice,), parsed));
    match parsed {
        Ok(v) => Ok((action, v)),
        Err(e) => Err(RpcError::Protocol(json_error_text(&e))),
    }
}

/// The JSON body of a complete response frame. A failure flag gives a `ServerError`
/// carrying the body as text; a success whose body is not JSON gives a `Protocol` error.
/// The value returned is the parse of the frame's body.
pub fn decode_response(d: ResponseFrameDecoder) -> (r: Result<JsonValue, RpcError>)
    requires
        response_status(d@) == (0nat, None::<FrameFault>),
    ensures
        r is Ok <==> d@[0] == 0 && json_parses(response_body(d@)),
        d@[0] != 0 ==> (r matches Err(RpcError::ServerError(s)) && s@ == utf8_lossy(
            response_body(d@),
        )),
        d@[0] == 0 && !json_parses(response_body(d@)) ==> (r matches Err(e) && e is Protocol),
        r matches Ok(v) ==> is_parse_of(response_body(d@), v),
{
    match d.finish() {
        Ok(body) => {
            let slice = body.as_slice();
            let parsed = json_from_slice(slice);
            assert(call_ensures(json_from_slice, (slice,), parsed));
            match parsed {
                Ok(v) => Ok(v),
                Err(e) => Err(RpcError::Protocol(json_error_text(&e))),
            }
        },
        Err(e) => Err(e),
    }
}

/// Decoding a request frame gives back the action and body it was encoded from, when
/// the action is at most `MAX_ACTION_LEN` bytes and the body at most `MAX_BODY_LEN`.
/// Read chunk by chunk, the frame is asked for as its four fields in order.
pub proof fn request_frame_roundtrip(action: Seq<char>, body: Seq<u8>)
    requires
        encode_utf8(action).len() <= MAX_ACTION_LEN,
        body.len() <= MAX_BODY_LEN,
    ensures
        ({
            let a = encode_utf8(action);
            let f = request_frame(a, body);
            &&& request_status(f) == (0nat, None::<FrameFault>)
            &&& request_action(f) == action
            &&& request_body(f) == body
            &&& request_status(f.take(0)) == (4nat, None::<FrameFault>)
            &&& a.len() > 0 ==> request_status(f.take(4)) == (a.len(), None::<FrameFault>)
            &&& request_status(f.take(4 + a.len() as int)) == (4nat, None::<FrameFault>)
            &&& body.len() > 0 ==> request_status(f.take(8 + a.len() as int)) == (
                body.len(),
                None::<FrameFault>,
            )
        }),
{
    let a = encode_utf8(action);
    let f = request_frame(a, body);
    let al: int = a.len() as int;
    let bl: int = body.len() as int;
    let la = length_field(a.len());
    let lb = length_field(body.len());
    assert(la == a.len());
    assert(lb == body.len());
    lemma_be32_roundtrip(la);
    lemma_be32_roundtrip(lb);
    assert(f.subrange(0, 4) =~= be32_bytes(la));
    assert(be32_value(f, 0) == be32_value(be32_bytes(la), 0));
    assert(f.subrange(4, 4 + al) =~= a);
    assert(be32_value(f, 4 + al) == be32_value(be32_bytes(lb), 0));
    assert(f.subrange(8 + al, 8 + al + bl) =~= body);
    let t4 = f.take(4);
    assert(be32_value(t4, 0) == be32_value(f, 0));
    let t4a = f.take(4 + al);
    assert(be32_value(t4a, 0) == be32_value(f, 0));
    assert(t4a.subrange(4, 4 + al) =~= a);
    let t8a = f.take(8 + al);
    assert(be32_value(t8a, 0) == be32_value(f, 0));
    assert(t8a.subrange(4, 4 + al) =~= a);
    assert(be32_value(t8a, 4 + al) == be32_value(f, 4 + al));
}

/// Decoding a response frame gives back its success flag and body, when the body is
/// at most `MAX_BODY_LEN` bytes.
pub proof fn response_frame_roundtrip(ok: bool, body: Seq<u8>)
    requires
        body.len() <= MAX_BODY_LEN,
    ensures
        ({
            let f = response_frame(ok, body);
            &&& response_status(f) == (0nat, None::<FrameFault>)
            &&& (f[0] == 0 <==> ok)
            &&& response_body(f) == body
        }),
{
    let f = response_frame(ok, body);
    let bl: int = body.len() as int;
    let lb = length_field(body.len());
    assert(lb == body.len());
    lemma_be32_roundtrip(lb);
    assert(be32_value(f, 1) == be32_value(be32_bytes(lb), 0));
    assert(f.subrange(5, 5 + bl) =~= body);
}


/// A JSON request frame carries the whole serialization of its body: for any action and
/// serialized body within the limits, the frame's body length field is the length of
/// the serialization, and decoding the frame gives back the action and every byte of it.
pub proof fn json_request_frame_carries_serialization(
    action: Seq<char>,
    body: &JsonValue,
    b: Seq<u8>,
)
    requires
        is_serialization_of(body, b),
        encode_utf8(action).len() <= MAX_ACTION_LEN,
        b.len() <= MAX_BODY_LEN,
    ensures
        ({
            let f = request_frame(encode_utf8(action), b);
            &&& be32_value(f, 4 + encode_utf8(action).len() as int) == b.len()
            &&& request_status(f) == (0nat, None::<FrameFault>)
            &&& request_action(f) == action
            &&& request_body(f) == b
        }),
{
    request_frame_roundtrip(action, b);
    let f = request_frame(encode_utf8(action), b);
    assert(request_body(f).len() == b.len());
}

/// A JSON response frame carries the whole serialization of its body: its length field
/// is the serialization's length and decoding gives back its flag and every byte.
pub proof fn json_response_frame_carries_serialization(ok: bool, body: &JsonValue, b: Seq<u8>)
    requires
        is_serialization_of(body, b),
        b.len() <= MAX_BODY_LEN,
    ensures
        ({
            let f = response_frame(ok, b);
            &&& be32_value(f, 1) == b.len()
            &&& response_status(f) == (0nat, None::<FrameFault>)
            &&& (f[0] == 0) == ok
            &&& response_body(f) == b
        }),
{
    response_frame_roundtrip(ok, b);
    let f = response_frame(ok, b);
    assert(response_body(f).len() == b.len());
}


/// A value is the parse of some bytes only when those bytes are a JSON document, so a
/// decoder's value always comes from a body that parses.
pub proof fn parse_needs_json(bytes: Seq<u8>, value: JsonValue)
    ensures
        is_parse_of(bytes, value) ==> json_parses(bytes),
{
    if is_parse_of(bytes, value) {
        let s = choose|s: &[u8]|
            s@ == bytes && call_ensures(json_from_slice, (s,), Ok::<JsonValue, JsonError>(value));
        assert(json_parses(s@));
    }
}

} // verus!
