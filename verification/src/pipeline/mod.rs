//! The context of one request as it moves through the proxy: its
//! identity, the routing and replica decisions, and the buffered response
//! kept for the cache.

use vstd::prelude::*;
use crate::config::BucketConfig;
use crate::text::{opt_view, opt_str_view};

verus! {

/// Whether a character is a lower-case hexadecimal digit.
pub open spec fn lower_hex(c: char) -> bool {
    ('0' <= c && c <= '9') || ('a' <= c && c <= 'f')
}

/// Whether `s` is a version 4 UUID in hyphenated lower-case form:
/// 8-4-4-4-12 hexadecimal digits, version digit `4`.
pub open spec fn uuid_v4_text(s: Seq<char>) -> bool {
    &&& s.len() == 36
    &&& forall|i: int|
        0 <= i < 36 ==> if i == 8 || i == 13 || i == 18 || i == 23 {
            #[trigger] s[i] == '-'
        } else {
            lower_hex(s[i])
        }
    &&& s[14] == '4'
}

/// Wrapper of `uuid::Uuid::new_v4` followed by its `to_string`: a fresh
/// random request id. The value is random; the contract claims only the
/// hyphenated lower-case text form of a version 4 UUID that `uuid`'s
/// `LowerHex` formatting writes.
#[verifier::external_body]
fn new_request_id() -> (r: String)
    ensures
        uuid_v4_text(r@),
{
    uuid::Uuid::new_v4().to_string()
}

/// Wrapper of `SystemTime::now().duration_since(UNIX_EPOCH)`: whole
/// seconds since the Unix epoch (0 for a clock set before it). Nothing
/// is claimed of the value.
#[verifier::external_body]
fn unix_now_secs() -> (r: u64) {
    match std::time::SystemTime::now().duration_since(std::time::UNIX_EPOCH) {
        Ok(d) => d.as_secs(),
        Err(_) => 0,
    }
}

/// Name/value pairs as text.
pub open spec fn pairs_view(v: Seq<(String, String)>) -> Seq<(Seq<char>, Seq<char>)> {
    v.map_values(|p: (String, String)| (p.0@, p.1@))
}

/// The optional bytes of an optional buffer.
pub open spec fn opt_bytes(o: Option<Vec<u8>>) -> Option<Seq<u8>> {
    match o {
        Some(v) => Some(v@),
        None => None,
    }
}

/// Abstract state of a request context.
pub ghost struct RequestContextView {
    /// Unique request id.
    pub request_id: Seq<char>,
    /// HTTP method.
    pub method: Seq<char>,
    /// Request path.
    pub path: Seq<char>,
    /// Request headers.
    pub headers: Seq<(Seq<char>, Seq<char>)>,
    /// Query parameters.
    pub query_params: Seq<(Seq<char>, Seq<char>)>,
    /// Arrival time, Unix seconds.
    pub timestamp: u64,
    /// Bucket the request was routed to.
    pub bucket_config: Option<BucketConfig>,
    /// Replica serving the request.
    pub replica_name: Option<Seq<char>>,
    /// Response bytes buffered for the cache, when buffering.
    pub response_buffer: Option<Seq<u8>>,
    /// Content-Type of the upstream response.
    pub response_content_type: Option<Seq<char>>,
    /// ETag of the upstream response.
    pub response_etag: Option<Seq<char>>,
    /// Last-Modified of the upstream response.
    pub response_last_modified: Option<Seq<char>>,
    /// Whether the response is to be cached.
    pub should_cache_response: bool,
    /// Bytes buffered so far.
    pub total_response_size: usize,
    /// Retry attempt (0 for the first attempt).
    pub retry_attempt: u32,
}

/// Everything one request carries through the proxy.
#[derive(Debug, Clone)]
pub struct RequestContext {
    request_id: String,
    method: String,
    path: String,
    headers: Vec<(String, String)>,
    query_params: Vec<(String, String)>,
    timestamp: u64,
    bucket_config: Option<BucketConfig>,
    replica_name: Option<String>,
    response_buffer: Option<Vec<u8>>,
    response_content_type: Option<String>,
    response_etag: Option<String>,
    response_last_modified: Option<String>,
    should_cache_response: bool,
    total_response_size: usize,
    retry_attempt: u32,
}

impl View for RequestContext {
    type V = RequestContextView;

    closed spec fn view(&self) -> RequestContextView {
        RequestContextView {
            request_id: self.request_id@,
            method: self.method@,
            path: self.path@,
            headers: pairs_view(self.headers@),
            query_params: pairs_view(self.query_params@),
            timestamp: self.timestamp,
            bucket_config: self.bucket_config,
            replica_name: opt_view(self.replica_name),
            response_buffer: opt_bytes(self.response_buffer),
            response_content_type: opt_view(self.response_content_type),
            response_etag: opt_view(self.response_etag),
            response_last_modified: opt_view(self.response_last_modified),
            should_cache_response: self.should_cache_response,
            total_response_size: self.total_response_size,
            retry_attempt: self.retry_attempt,
        }
    }
}

/// A fresh context: the given request line, headers and parameters, a
/// new id, nothing decided yet.
pub open spec fn fresh_context(
    c: RequestContextView,
    method: Seq<char>,
    path: Seq<char>,
    headers: Seq<(Seq<char>, Seq<char>)>,
    query_params: Seq<(Seq<char>, Seq<char>)>,
) -> bool {
    &&& uuid_v4_text(c.request_id)
    &&& c.method == method
    &&& c.path == path
    &&& c.headers == headers
    &&& c.query_params == query_params
    &&& c.bucket_config is None
    &&& c.replica_name is None
    &&& c.response_buffer is None
    &&& c.response_content_type is None
    &&& c.response_etag is None
    &&& c.response_last_modified is None
    &&& !c.should_cache_response
    &&& c.total_response_size == 0
    &&& c.retry_attempt == 0
}

impl RequestContext {
    fn build(
        method: String,
        path: String,
        headers: Vec<(String, String)>,
        query_params: Vec<(String, String)>,
    ) -> (r: Self)
        ensures
            fresh_context(r@, method@, path@, pairs_view(headers@), pairs_view(query_params@)),
    {
        RequestContext {
            request_id: new_request_id(),
            method,
            path,
            headers,
            query_params,
            timestamp: unix_now_secs(),
            bucket_config: None,
            replica_name: None,
            response_buffer: None,
            response_content_type: None,
            response_etag: None,
            response_last_modified: None,
            should_cache_response: false,
            total_response_size: 0,
            retry_attempt: 0,
        }
    }

    /// A context for a request with a new unique id and the current time.
    pub fn new(method: String, path: String) -> (r: Self)
        ensures
            fresh_context(r@, method@, path@, Seq::empty(), Seq::empty()),
    {
        let r = Self::build(method, path, Vec::new(), Vec::new());
        assert(pairs_view(Seq::<(String, String)>::empty()) =~= Seq::empty());
        r
    }

    /// A context with the given headers.
    pub fn with_headers(method: String, path: String, headers: Vec<(String, String)>) -> (r: Self)
        ensures
            fresh_context(r@, method@, path@, pairs_view(headers@), Seq::empty()),
    {
        let r = Self::build(method, path, headers, Vec::new());
        assert(pairs_view(Seq::<(String, String)>::empty()) =~= Seq::empty());
        r
    }

    /// A context with the given query parameters.
    pub fn with_query_params(method: String, path: String, query_params: Vec<(String, String)>) -> (r:
        Self)
        ensures
            fresh_context(r@, method@, path@, Seq::empty(), pairs_view(query_params@)),
    {
        let r = Self::build(method, path, Vec::new(), query_params);
        assert(pairs_view(Seq::<(String, String)>::empty()) =~= Seq::empty());
        r
    }

    /// The unique request id.
    pub fn request_id(&self) -> (r: &str)
        ensures
            r@ == self@.request_id,
    {
        self.request_id.as_str()
    }

    /// The HTTP method.
    pub fn method(&self) -> (r: &str)
        ensures
            r@ == self@.method,
    {
        self.method.as_str()
    }

    /// Replaces the HTTP method.
    pub fn set_method(&mut self, method: String)
        ensures
            final(self)@ == (RequestContextView { method: method@, ..old(self)@ }),
    {
        self.method = method;
    }

    /// The request path.
    pub fn path(&self) -> (r: &str)
        ensures
            r@ == self@.path,
    {
        self.path.as_str()
    }

    /// Replaces the request path.
    pub fn set_path(&mut self, path: String)
        ensures
            final(self)@ == (RequestContextView { path: path@, ..old(self)@ }),
    {
        self.path = path;
    }

    /// The request headers.
    pub fn headers(&self) -> (r: &Vec<(String, String)>)
        ensures
            pairs_view(r@) == self@.headers,
    {
        &self.headers
    }

    /// Replaces the request headers.
    pub fn set_headers(&mut self, headers: Vec<(String, String)>)
        ensures
            final(self)@ == (RequestContextView { headers: pairs_view(headers@), ..old(self)@ }),
    {
        self.headers = headers;
    }

    /// The query parameters.
    pub fn query_params(&self) -> (r: &Vec<(String, String)>)
        ensures
            pairs_view(r@) == self@.query_params,
    {
        &self.query_params
    }

    /// Replaces the query parameters.
    pub fn set_query_params(&mut self, query_params: Vec<(String, String)>)
        ensures
            final(self)@ == (RequestContextView { query_params: pairs_view(query_params@), ..old(self)@ }),
    {
        self.query_params = query_params;
    }

    /// Arrival time of the request, Unix seconds.
    pub fn timestamp(&self) -> (r: u64)
        ensures
            r == self@.timestamp,
    {
        self.timestamp
    }

    /// Records the bucket the request was routed to.
    pub fn set_bucket_config(&mut self, bucket_config: BucketConfig)
        ensures
            final(self)@ == (RequestContextView { bucket_config: Some(bucket_config), ..old(self)@ }),
    {
        self.bucket_config = Some(bucket_config);
    }

    /// The bucket the request was routed to.
    pub fn bucket_config(&self) -> (r: Option<&BucketConfig>)
        ensures
            match self@.bucket_config {
                Some(b) => r == Some(&b),
                None => r is None,
            },
    {
        match &self.bucket_config {
            Some(b) => Some(b),
            None => None,
        }
    }

    /// Records the replica serving the request.
    pub fn set_replica_name(&mut self, replica_name: String)
        ensures
            final(self)@ == (RequestContextView { replica_name: Some(replica_name@), ..old(self)@ }),
    {
        self.replica_name = Some(replica_name);
    }

    /// The replica serving the request.
    pub fn replica_name(&self) -> (r: Option<&str>)
        ensures
            opt_str_view(r) == self@.replica_name,
    {
        match &self.replica_name {
            Some(s) => Some(s.as_str()),
            None => None,
        }
    }

    /// Starts buffering the response for the cache, from empty.
    pub fn enable_response_buffering(&mut self)
        ensures
            final(self)@ == (RequestContextView {
                response_buffer: Some(Seq::empty()),
                should_cache_response: true,
                total_response_size: 0,
                ..old(self)@
            }),
    {
        self.response_buffer = Some(Vec::new());
        self.should_cache_response = true;
        self.total_response_size = 0;
        assert(opt_bytes(self.response_buffer) =~= Some(Seq::<u8>::empty()));
    }

    /// Stops buffering (range requests, large files) and drops what was
    /// buffered.
    pub fn disable_response_buffering(&mut self)
        ensures
            final(self)@ == (RequestContextView {
                response_buffer: None,
                should_cache_response: false,
                ..old(self)@
            }),
    {
        self.response_buffer = None;
        self.should_cache_response = false;
    }

    /// Whether the response is being buffered.
    pub fn is_response_buffering_enabled(&self) -> (r: bool)
        ensures
            r == self@.response_buffer is Some,
    {
        self.response_buffer.is_some()
    }

    /// Appends a response chunk when buffering; otherwise nothing changes.
    pub fn append_response_chunk(&mut self, chunk: &[u8])
        requires
            old(self)@.response_buffer is Some ==> old(self)@.total_response_size + chunk@.len()
                <= usize::MAX,
        ensures
            match old(self)@.response_buffer {
                Some(b) => final(self)@ == (RequestContextView {
                    response_buffer: Some(b + chunk@),
                    total_response_size: (old(self)@.total_response_size + chunk@.len()) as usize,
                    ..old(self)@
                }),
                None => final(self)@ == old(self)@,
            },
    {
        let mut taken: Option<Vec<u8>> = None;
        std::mem::swap(&mut taken, &mut self.response_buffer);
        match taken {
            Some(mut buffer) => {
                let ghost before = buffer@;
                let mut i: usize = 0;
                while i < chunk.len()
                    invariant
                        i <= chunk@.len(),
                        buffer@ == before + chunk@.take(i as int),
                    decreases chunk@.len() - i,
                {
                    buffer.push(chunk[i]);
                    assert(chunk@.take(i + 1) =~= chunk@.take(i as int).push(chunk@[i as int]));
                    i = i + 1;
                }
                assert(chunk@.take(chunk@.len() as int) =~= chunk@);
                self.response_buffer = Some(buffer);
                self.total_response_size = self.total_response_size + chunk.len();
            },
            None => {},
        }
    }

    /// Hands out the buffered response and stops buffering.
    pub fn take_response_buffer(&mut self) -> (r: Option<Vec<u8>>)
        ensures
            opt_bytes(r) == old(self)@.response_buffer,
            final(self)@ == (RequestContextView { response_buffer: None, ..old(self)@ }),
    {
        let mut taken: Option<Vec<u8>> = None;
        std::mem::swap(&mut taken, &mut self.response_buffer);
        taken
    }

    /// Records the upstream Content-Type.
    pub fn set_response_content_type(&mut self, content_type: String)
        ensures
            final(self)@ == (RequestContextView {
                response_content_type: Some(content_type@),
                ..old(self)@
            }),
    {
        self.response_content_type = Some(content_type);
    }

    /// The upstream Content-Type.
    pub fn response_content_type(&self) -> (r: Option<&str>)
        ensures
            opt_str_view(r) == self@.response_content_type,
    {
        match &self.response_content_type {
            Some(s) => Some(s.as_str()),
            None => None,
        }
    }

    /// Records the upstream ETag.
    pub fn set_response_etag(&mut self, etag: String)
        ensures
            final(self)@ == (RequestContextView { response_etag: Some(etag@), ..old(self)@ }),
    {
        self.response_etag = Some(etag);
    }

    /// The upstream ETag.
    pub fn response_etag(&self) -> (r: Option<&str>)
        ensures
            opt_str_view(r) == self@.response_etag,
    {
        match &self.response_etag {
            Some(s) => Some(s.as_str()),
            None => None,
        }
    }

    /// Records the upstream Last-Modified.
    pub fn set_response_last_modified(&mut self, last_modified: String)
        ensures
            final(self)@ == (RequestContextView {
                response_last_modified: Some(last_modified@),
                ..old(self)@
            }),
    {
        self.response_last_modified = Some(last_modified);
    }

    /// The upstream Last-Modified.
    pub fn response_last_modified(&self) -> (r: Option<&str>)
        ensures
            opt_str_view(r) == self@.response_last_modified,
    {
        match &self.response_last_modified {
            Some(s) => Some(s.as_str()),
            None => None,
        }
    }

    /// Whether the response is to be cached.
    pub fn should_cache_response(&self) -> (r: bool)
        ensures
            r == self@.should_cache_response,
    {
        self.should_cache_response
    }

    /// Bytes buffered so far.
    pub fn total_response_size(&self) -> (r: usize)
        ensures
            r == self@.total_response_size,
    {
        self.total_response_size
    }

    /// The current retry attempt (0 for the first attempt).
    pub fn retry_attempt(&self) -> (r: u32)
        ensures
            r == self@.retry_attempt,
    {
        self.retry_attempt
    }

    /// Counts one more retry and returns the new attempt number.
    pub fn increment_retry_attempt(&mut self) -> (r: u32)
        requires
            old(self)@.retry_attempt < u32::MAX,
        ensures
            r == old(self)@.retry_attempt + 1,
            final(self)@ == (RequestContextView { retry_attempt: r, ..old(self)@ }),
    {
        self.retry_attempt = self.retry_attempt + 1;
        self.retry_attempt
    }
}

} // verus!
