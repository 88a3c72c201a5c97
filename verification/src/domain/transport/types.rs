//! Transport data types: packets, HTTP methods, header maps, virtual requests and
//! responses, and virtual user identifiers.

use vstd::prelude::*;
use crate::clock::unix_time_micros;
use crate::text::{decimal, format_decimal};

verus! {

/// Opaque handle of a transport server instance.
pub type TransportHandle = u64;

/// A received packet and its metadata.
#[derive(Debug, Clone)]
pub struct TransportPacket {
    /// Raw packet bytes.
    pub data: Vec<u8>,
    /// Source connection identifier.
    pub connection_id: u64,
    /// Time of receipt, microseconds since the Unix epoch.
    pub timestamp_us: u64,
    /// Protocol-specific stream identifier.
    pub stream_id: Option<u64>,
}

impl TransportPacket {
    /// A packet holding `data` from `connection_id`, stamped with the current time and
    /// no stream identifier.
    pub fn new(data: Vec<u8>, connection_id: u64) -> (r: Self)
        ensures
            r.data@ == data@,
            r.connection_id == connection_id,
            r.stream_id is None,
    {
        let now = unix_time_micros();
        TransportPacket { data, connection_id, timestamp_us: now, stream_id: None }
    }

    /// Byte length of the packet data.
    pub fn len(&self) -> (r: usize)
        ensures
            r == self.data@.len(),
    {
        self.data.len()
    }

    /// Whether the packet holds no data.
    pub fn is_empty(&self) -> (r: bool)
        ensures
            r == (self.data@.len() == 0),
    {
        self.data.len() == 0
    }
}

/// HTTP request methods.
#[derive(Debug, Clone, Copy, PartialEq, Eq, Structural, Hash)]
pub enum HttpMethod {
    /// Retrieve a resource.
    Get,
    /// Create or submit a resource.
    Post,
    /// Replace a resource.
    Put,
    /// Remove a resource.
    Delete,
    /// Partially update a resource.
    Patch,
    /// Retrieve headers only.
    Head,
    /// Request communication options.
    Options,
}

impl HttpMethod {
    /// The method's verb, as displayed.
    pub open spec fn display(self) -> Seq<char> {
        match self {
            HttpMethod::Get => "GET"@,
            HttpMethod::Post => "POST"@,
            HttpMethod::Put => "PUT"@,
            HttpMethod::Delete => "DELETE"@,
            HttpMethod::Patch => "PATCH"@,
            HttpMethod::Head => "HEAD"@,
            HttpMethod::Options => "OPTIONS"@,
        }
    }

    /// Retrying the method is harmless: GET, HEAD, OPTIONS, PUT and DELETE.
    pub open spec fn idempotent(self) -> bool {
        self == HttpMethod::Get || self == HttpMethod::Head || self == HttpMethod::Options
            || self == HttpMethod::Put || self == HttpMethod::Delete
    }

    /// The method only reads: GET, HEAD and OPTIONS.
    pub open spec fn safe(self) -> bool {
        self == HttpMethod::Get || self == HttpMethod::Head || self == HttpMethod::Options
    }

    /// Whether this method is idempotent, i.e. safe to retry (GET, HEAD, OPTIONS, PUT,
    /// DELETE): every safe method is.
    pub fn is_idempotent(self) -> (r: bool)
        ensures
            r == self.idempotent(),
    {
        match self {
            HttpMethod::Get | HttpMethod::Head | HttpMethod::Options | HttpMethod::Put
            | HttpMethod::Delete => true,
            _ => false,
        }
    }

    /// Whether this method is safe, i.e. read-only (GET, HEAD, OPTIONS).
    pub fn is_safe(self) -> (r: bool)
        ensures
            r == self.safe(),
    {
        match self {
            HttpMethod::Get | HttpMethod::Head | HttpMethod::Options => true,
            _ => false,
        }
    }

    /// Renders the method's verb.
    pub fn to_display_string(&self) -> (r: String)
        ensures
            r@ == self.display(),
    {
        match self {
            HttpMethod::Get => String::from_str("GET"),
            HttpMethod::Post => String::from_str("POST"),
            HttpMethod::Put => String::from_str("PUT"),
            HttpMethod::Delete => String::from_str("DELETE"),
            HttpMethod::Patch => String::from_str("PATCH"),
            HttpMethod::Head => String::from_str("HEAD"),
            HttpMethod::Options => String::from_str("OPTIONS"),
        }
    }
}

/// The value of the last entry of `entries` whose key is `key`, if any.
pub open spec fn lookup(entries: Seq<(String, String)>, key: Seq<char>) -> Option<Seq<char>>
    decreases entries.len(),
{
    if entries.len() == 0 {
        None
    } else if entries.last().0@ == key {
        Some(entries.last().1@)
    } else {
        lookup(entries.drop_last(), key)
    }
}

/// Index of the last entry of `entries` whose key is `key`, or -1.
pub open spec fn last_index(entries: Seq<(String, String)>, key: Seq<char>) -> int
    decreases entries.len(),
{
    if entries.len() == 0 {
        -1
    } else if entries.last().0@ == key {
        entries.len() - 1
    } else {
        last_index(entries.drop_last(), key)
    }
}

proof fn lemma_last_index(entries: Seq<(String, String)>, key: Seq<char>)
    ensures
        -1 <= last_index(entries, key) < entries.len(),
        last_index(entries, key) >= 0 ==> entries[last_index(entries, key)].0@ == key
            && lookup(entries, key) == Some(entries[last_index(entries, key)].1@),
        forall|j: int| last_index(entries, key) < j < entries.len() ==> entries[j].0@ != key,
        last_index(entries, key) == -1 ==> lookup(entries, key) is None,
    decreases entries.len(),
{
    if entries.len() > 0 {
        let rest = entries.drop_last();
        lemma_last_index(rest, key);
        assert forall|j: int| last_index(entries, key) < j < entries.len() implies entries[j].0@
            != key by {
            if j < entries.len() - 1 {
                assert(rest[j] == entries[j]);
            }
        }
    }
}

proof fn lemma_lookup_update(
    entries: Seq<(String, String)>,
    i: int,
    k: String,
    v: String,
    other: Seq<char>,
)
    requires
        0 <= i < entries.len(),
        entries[i].0@ == k@,
        forall|j: int| i < j < entries.len() ==> entries[j].0@ != k@,
    ensures
        lookup(entries.update(i, (k, v)), k@) == Some(v@),
        other != k@ ==> lookup(entries.update(i, (k, v)), other) == lookup(entries, other),
    decreases entries.len(),
{
    let u = entries.update(i, (k, v));
    if i < entries.len() - 1 {
        assert(u.drop_last() =~= entries.drop_last().update(i, (k, v)));
        lemma_lookup_update(entries.drop_last(), i, k, v, other);
    } else {
        assert(u.drop_last() =~= entries.drop_last());
    }
}

proof fn lemma_lookup_push(entries: Seq<(String, String)>, k: String, v: String, other: Seq<char>)
    ensures
        lookup(entries.push((k, v)), k@) == Some(v@),
        other != k@ ==> lookup(entries.push((k, v)), other) == lookup(entries, other),
{
    assert(entries.push((k, v)).drop_last() =~= entries);
}

/// HTTP headers: a map from names to values, compared case-sensitively.
#[derive(Debug, Clone)]
pub struct HeaderMap {
    entries: Vec<(String, String)>,
}

impl HeaderMap {
    /// The value recorded for `key`, if any.
    pub closed spec fn get_spec(&self, key: Seq<char>) -> Option<Seq<char>> {
        lookup(self.entries@, key)
    }

    /// The number of entries: inserting a name not yet recorded adds one.
    pub closed spec fn size(&self) -> nat {
        self.entries@.len()
    }

    /// An empty header map.
    pub fn new() -> (r: Self)
        ensures
            forall|k: Seq<char>| r.get_spec(k) is None,
            r.size() == 0,
    {
        HeaderMap { entries: Vec::new() }
    }

    /// Records `value` under `key`, replacing any earlier value.
    pub fn insert(&mut self, key: String, value: String)
        ensures
            final(self).get_spec(key@) == Some(value@),
            forall|k: Seq<char>| k != key@ ==> final(self).get_spec(k) == old(self).get_spec(k),
            final(self).size() == if old(self).get_spec(key@) is Some {
                old(self).size()
            } else {
                old(self).size() + 1
            },
    {
        let ghost old_entries = self.entries@;
        let ghost key_view = key@;
        proof {
            lemma_last_index(old_entries, key_view);
        }
        match self.find(&key) {
            Some(i) => {
                let ghost kk = key;
                let ghost vv = value;
                self.entries.set(i, (key, value));
                proof {
                    assert forall|k: Seq<char>| k != key_view implies lookup(self.entries@, k)
                        == lookup(old_entries, k) by {
                        lemma_lookup_update(old_entries, i as int, kk, vv, k);
                    }
                    lemma_lookup_update(old_entries, i as int, kk, vv, key_view);
                }
            },
            None => {
                let ghost kk = key;
                let ghost vv = value;
                self.entries.push((key, value));
                proof {
                    assert forall|k: Seq<char>| k != key_view implies lookup(self.entries@, k)
                        == lookup(old_entries, k) by {
                        lemma_lookup_push(old_entries, kk, vv, k);
                    }
                    lemma_lookup_push(old_entries, kk, vv, key_view);
                }
            },
        }
    }

    /// Index of the last entry named `key`.
    fn find(&self, key: &String) -> (r: Option<usize>)
        ensures
            r matches Some(i) ==> i == last_index(self.entries@, key@),
            r is None ==> last_index(self.entries@, key@) == -1,
    {
        proof {
            lemma_last_index(self.entries@, key@);
        }
        let mut i = self.entries.len();
        while i > 0
            invariant
                i <= self.entries@.len(),
                forall|j: int| i <= j < self.entries@.len() ==> self.entries@[j].0@ != key@,
                last_index(self.entries@, key@) < i,
                -1 <= last_index(self.entries@, key@),
                last_index(self.entries@, key@) >= 0 ==> self.entries@[last_index(
                    self.entries@,
                    key@,
                )].0@ == key@,
                forall|j: int|
                    last_index(self.entries@, key@) < j < self.entries@.len()
                        ==> self.entries@[j].0@ != key@,
            decreases i,
        {
            if self.entries[i - 1].0 == *key {
                return Some(i - 1);
            }
            i = i - 1;
        }
        None
    }

    /// The value recorded under `key`, if any.
    pub fn get(&self, key: &str) -> (r: Option<&String>)
        ensures
            r matches Some(v) ==> self.get_spec(key@) == Some(v@),
            r is None ==> self.get_spec(key@) is None,
    {
        let k = String::from_str(key);
        proof {
            lemma_last_index(self.entries@, key@);
        }
        match self.find(&k) {
            Some(i) => Some(&self.entries[i].1),
            None => None,
        }
    }

    /// The number of entries recorded.
    pub fn len(&self) -> (r: usize)
        ensures
            r == self.size(),
    {
        self.entries.len()
    }
}

/// Virtual user identifier.
#[derive(Debug, Clone, Copy, PartialEq, Eq, Structural, PartialOrd, Ord, Hash)]
pub struct VUID(pub u64);

impl VUID {
    /// The identifier as displayed: `VU#<id>`.
    pub open spec fn display(self) -> Seq<char> {
        "VU#"@ + decimal(self.0 as nat)
    }

    /// Wraps a raw identifier.
    pub fn new(id: u64) -> (r: Self)
        ensures
            r.0 == id,
    {
        VUID(id)
    }

    /// The raw identifier.
    pub fn as_u64(self) -> (r: u64)
        ensures
            r == self.0,
    {
        self.0
    }

    /// Renders the identifier as `VU#<id>`.
    pub fn to_display_string(&self) -> (r: String)
        ensures
            r@ == self.display(),
    {
        String::from_str("VU#").concat(format_decimal(self.0).as_str())
    }
}

/// HTTP request sent by a virtual user through the simulation layer.
#[derive(Debug, Clone)]
pub struct VirtualRequest {
    /// Virtual user sending the request.
    pub vu_id: VUID,
    /// HTTP method.
    pub method: HttpMethod,
    /// URL path.
    pub path: String,
    /// Request headers.
    pub headers: HeaderMap,
    /// Optional request body.
    pub body: Option<Vec<u8>>,
    /// Simulation tick at which the request was sent.
    pub sent_at_tick: u64,
}

impl VirtualRequest {
    /// A request without headers or body.
    pub fn new(vu_id: VUID, method: HttpMethod, path: &str, sent_at_tick: u64) -> (r: Self)
        ensures
            r.vu_id == vu_id,
            r.method == method,
            r.path@ == path@,
            forall|k: Seq<char>| r.headers.get_spec(k) is None,
            r.body is None,
            r.sent_at_tick == sent_at_tick,
    {
        VirtualRequest {
            vu_id,
            method,
            path: String::from_str(path),
            headers: HeaderMap::new(),
            body: None,
            sent_at_tick,
        }
    }

    /// Sets the body.
    pub fn with_body(self, body: Vec<u8>) -> (r: Self)
        ensures
            r == (VirtualRequest { body: Some(body), ..self }),
    {
        let mut s = self;
        s.body = Some(body);
        s
    }

    /// Sets header `key` to `value`.
    pub fn with_header(self, key: &str, value: &str) -> (r: Self)
        ensures
            r.headers.get_spec(key@) == Some(value@),
            forall|k: Seq<char>| k != key@ ==> r.headers.get_spec(k) == self.headers.get_spec(k),
            r.vu_id == self.vu_id,
            r.method == self.method,
            r.path == self.path,
            r.body == self.body,
            r.sent_at_tick == self.sent_at_tick,
    {
        let mut s = self;
        s.headers.insert(String::from_str(key), String::from_str(value));
        s
    }

    /// The value of header `key` (case-sensitive).
    pub fn get_header(&self, key: &str) -> (r: Option<&String>)
        ensures
            r matches Some(v) ==> self.headers.get_spec(key@) == Some(v@),
            r is None ==> self.headers.get_spec(key@) is None,
    {
        self.headers.get(key)
    }
}

/// HTTP response returned by the simulation layer.
#[derive(Debug, Clone)]
pub struct VirtualResponse {
    /// HTTP status code.
    pub status: u16,
    /// Response headers.
    pub headers: HeaderMap,
    /// Optional response body.
    pub body: Option<Vec<u8>>,
    /// Simulated latency in ticks.
    pub latency_ticks: u64,
}

impl VirtualResponse {
    /// A response with `status`, no headers and no body.
    pub fn new(status: u16, latency_ticks: u64) -> (r: Self)
        ensures
            r.status == status,
            forall|k: Seq<char>| r.headers.get_spec(k) is None,
            r.body is None,
            r.latency_ticks == latency_ticks,
    {
        VirtualResponse { status, headers: HeaderMap::new(), body: None, latency_ticks }
    }

    /// 200 OK.
    pub fn ok(latency_ticks: u64) -> (r: Self)
        ensures
            r.status == 200,
            forall|k: Seq<char>| r.headers.get_spec(k) is None,
            r.body is None,
            r.latency_ticks == latency_ticks,
    {
        Self::new(200, latency_ticks)
    }

    /// 201 Created.
    pub fn created(latency_ticks: u64) -> (r: Self)
        ensures
            r.status == 201,
            forall|k: Seq<char>| r.headers.get_spec(k) is None,
            r.body is None,
            r.latency_ticks == latency_ticks,
    {
        Self::new(201, latency_ticks)
    }

    /// 400 Bad Request.
    pub fn bad_request(latency_ticks: u64) -> (r: Self)
        ensures
            r.status == 400,
            forall|k: Seq<char>| r.headers.get_spec(k) is None,
            r.body is None,
            r.latency_ticks == latency_ticks,
    {
        Self::new(400, latency_ticks)
    }

    /// 404 Not Found.
    pub fn not_found(latency_ticks: u64) -> (r: Self)
        ensures
            r.status == 404,
            forall|k: Seq<char>| r.headers.get_spec(k) is None,
            r.body is None,
            r.latency_ticks == latency_ticks,
    {
        Self::new(404, latency_ticks)
    }

    /// 500 Internal Server Error.
    pub fn server_error(latency_ticks: u64) -> (r: Self)
        ensures
            r.status == 500,
            forall|k: Seq<char>| r.headers.get_spec(k) is None,
            r.body is None,
            r.latency_ticks == latency_ticks,
    {
        Self::new(500, latency_ticks)
    }

    /// Sets the body.
    pub fn with_body(self, body: Vec<u8>) -> (r: Self)
        ensures
            r == (VirtualResponse { body: Some(body), ..self }),
    {
        let mut s = self;
        s.body = Some(body);
        s
    }

    /// Sets header `key` to `value`.
    pub fn with_header(self, key: &str, value: &str) -> (r: Self)
        ensures
            r.headers.get_spec(key@) == Some(value@),
            forall|k: Seq<char>| k != key@ ==> r.headers.get_spec(k) == self.headers.get_spec(k),
            r.status == self.status,
            r.body == self.body,
            r.latency_ticks == self.latency_ticks,
    {
        let mut s = self;
        s.headers.insert(String::from_str(key), String::from_str(value));
        s
    }

    /// The value of header `key` (case-sensitive).
    pub fn get_header(&self, key: &str) -> (r: Option<&String>)
        ensures
            r matches Some(v) ==> self.headers.get_spec(key@) == Some(v@),
            r is None ==> self.headers.get_spec(key@) is None,
    {
        self.headers.get(key)
    }

    /// Whether the status is 2xx.
    pub fn is_success(&self) -> (r: bool)
        ensures
            r == (200 <= self.status < 300),
    {
        self.status >= 200 && self.status < 300
    }

    /// Whether the status is 4xx.
    pub fn is_client_error(&self) -> (r: bool)
        ensures
            r == (400 <= self.status < 500),
    {
        self.status >= 400 && self.status < 500
    }

    /// Whether the status is 5xx.
    pub fn is_server_error(&self) -> (r: bool)
        ensures
            r == (500 <= self.status < 600),
    {
        self.status >= 500 && self.status < 600
    }
}

/// A read-only method is safe to retry: every safe method is idempotent.
pub proof fn safe_methods_are_idempotent(m: HttpMethod)
    ensures
        m.safe() ==> m.idempotent(),
{
}

/// A response status is in at most one of the success, client-error and server-error
/// classes.
pub proof fn status_classes_disjoint(status: u16)
    ensures
        !((200 <= status < 300) && (400 <= status < 500)),
        !((200 <= status < 300) && (500 <= status < 600)),
        !((400 <= status < 500) && (500 <= status < 600)),
{
}

} // verus!
