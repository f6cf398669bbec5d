//! Response handling: the headers kept for caching, buffering of the body
//! up to the cacheable size, cache keys and entries, caching decisions and
//! the choice of images worth optimizing.

use vstd::prelude::*;
use std::time::Duration;
use crate::cache::{CacheControl, CacheEntry, CacheKey, parse_cache_control, may_store, lifetime_secs, no_directives};
use crate::proxy::cache_handler::{either_header, find_header};
use crate::text::{
    fold_seq, has_prefix, has_infix, fold_of, chars_starts_with, chars_contains, chars_of, chars_slice, opt_view,
    string_from_chars, to_string,
};
use crate::time::{duration_from_secs, duration_from_secs_spec};

verus! {

/// Largest response body that is cached: 10 MiB.
pub const MAX_CACHE_SIZE: usize = 10485760;

/// Lifetime of a cached response without `Cache-Control` lifetime: one hour.
pub const DEFAULT_CACHE_TTL_SECS: u64 = 3600;

/// The lifetime of a cached response without a `Cache-Control` lifetime.
pub fn default_cache_ttl() -> (r: Duration)
    ensures
        r == duration_from_secs_spec(DEFAULT_CACHE_TTL_SECS),
{
    duration_from_secs(DEFAULT_CACHE_TTL_SECS)
}

/// Headers of an upstream response kept for caching.
#[derive(Debug, Clone, Default)]
pub struct CapturedHeaders {
    /// Content-Type header value.
    pub content_type: Option<String>,
    /// ETag header value (without surrounding quotes).
    pub etag: Option<String>,
    /// Last-Modified header value.
    pub last_modified: Option<String>,
    /// Cache-Control header value.
    pub cache_control: Option<String>,
}

/// The `Cache-Control` directives of captured headers (none without the
/// header).
pub open spec fn captured_directives(h: CapturedHeaders) -> CacheControl {
    match h.cache_control {
        Some(s) => parse_cache_control(s@),
        None => no_directives(),
    }
}

impl CapturedHeaders {
    /// No header captured.
    pub fn new() -> (r: Self)
        ensures
            r.content_type is None,
            r.etag is None,
            r.last_modified is None,
            r.cache_control is None,
    {
        CapturedHeaders { content_type: None, etag: None, last_modified: None, cache_control: None }
    }

    /// The parsed `Cache-Control` directives.
    pub fn cache_control_parsed(&self) -> (r: CacheControl)
        ensures
            r == captured_directives(*self),
    {
        match &self.cache_control {
            Some(s) => CacheControl::parse(s.as_str()),
            None => CacheControl::default(),
        }
    }

    /// Whether the directives allow storing the response.
    pub fn should_cache(&self) -> (r: bool)
        ensures
            r == may_store(captured_directives(*self)),
    {
        self.cache_control_parsed().should_store()
    }

    /// How long the response stays fresh: the directives' lifetime, else
    /// `default`.
    pub fn effective_ttl(&self, default: Duration) -> (r: Duration)
        ensures
            match lifetime_secs(captured_directives(*self)) {
                Some(v) => r == duration_from_secs_spec(v),
                None => r == default,
            },
    {
        self.cache_control_parsed().effective_ttl(default)
    }
}

/// Whether a header value reads as text: visible ASCII characters and
/// tabs only (what `HeaderValue::to_str` accepts).
pub open spec fn header_text_ok(v: Seq<char>) -> bool {
    forall|i: int|
        0 <= i < v.len() ==> #[trigger] v[i] == '\t' || (0x20 <= (v[i] as int) && (v[i] as int) < 0x7f)
}

/// A response header looked up under `first`, else `second`, kept only
/// when its value reads as text.
pub open spec fn readable_header(headers: Seq<(String, String)>, first: Seq<char>, second: Seq<char>) -> Option<
    Seq<char>,
> {
    match either_header(headers, first, second) {
        Some(v) => if header_text_ok(v) {
            Some(v)
        } else {
            None
        },
        None => None,
    }
}

/// Position of the first character at or after `i` that is not `"`.
pub open spec fn first_non_quote(s: Seq<char>, i: int) -> int
    decreases s.len() - i,
{
    if 0 <= i < s.len() && s[i] == '"' {
        first_non_quote(s, i + 1)
    } else {
        i
    }
}

/// End of `s[lo..j]` once the `"` characters at its end are dropped.
pub open spec fn end_before_quotes(s: Seq<char>, lo: int, j: int) -> int
    decreases j - lo,
{
    if lo < j && s[j - 1] == '"' {
        end_before_quotes(s, lo, j - 1)
    } else {
        j
    }
}

/// `s` without the `"` characters at its start and at its end.
pub open spec fn trim_quotes(s: Seq<char>) -> Seq<char> {
    let a = first_non_quote(s, 0);
    s.subrange(a, end_before_quotes(s, a, s.len() as int))
}

/// Drops the `"` characters at both ends of `s`.
fn trim_quote_chars(s: &str) -> (r: String)
    ensures
        r@ == trim_quotes(s@),
{
    let v = chars_of(s);
    let mut i: usize = 0;
    while i < v.len() && v[i] == '"'
        invariant
            i <= v@.len(),
            v@ == s@,
            first_non_quote(v@, i as int) == first_non_quote(v@, 0),
        decreases v.len() - i,
    {
        i = i + 1;
    }
    let mut j: usize = v.len();
    while j > i && v[j - 1] == '"'
        invariant
            i <= j <= v@.len(),
            v@ == s@,
            first_non_quote(v@, 0) == i,
            end_before_quotes(v@, i as int, j as int) == end_before_quotes(v@, i as int, v@.len() as int),
        decreases j - i,
    {
        j = j - 1;
    }
    let kept = chars_slice(&v, i, j);
    string_from_chars(&kept)
}

/// A header value kept only when it reads as text.
fn readable(value: Option<String>) -> (r: Option<String>)
    ensures
        opt_view(r) == match opt_view(value) {
            Some(v) => if header_text_ok(v) {
                Some(v)
            } else {
                None
            },
            None => None,
        },
{
    match value {
        None => None,
        Some(v) => {
            let cs = chars_of(v.as_str());
            let mut i: usize = 0;
            while i < cs.len()
                invariant
                    i <= cs@.len(),
                    cs@ == v@,
                    opt_view(value) == Some(v@),
                    forall|k: int|
                        0 <= k < i ==> #[trigger] cs@[k] == '\t' || (0x20 <= (cs@[k] as int) && (cs@[k] as int)
                            < 0x7f),
                decreases cs.len() - i,
            {
                let c = cs[i];
                if !(c == '\t' || (' ' <= c && c <= '~')) {
                    assert(!(cs@[i as int] == '\t' || (0x20 <= (cs@[i as int] as int) && (cs@[i as int] as int)
                        < 0x7f)));
                    assert(v@[i as int] == cs@[i as int]);
                    assert(!header_text_ok(v@));
                    return None;
                }
                i = i + 1;
            }
            Some(v)
        },
    }
}

/// The header looked up under `first`, else `second`, kept when it reads
/// as text.
fn capture_header(headers: &Vec<(String, String)>, first: &str, second: &str) -> (r: Option<String>)
    ensures
        opt_view(r) == readable_header(headers@, first@, second@),
{
    let found = match find_header(headers, first) {
        Some(v) => Some(v),
        None => find_header(headers, second),
    };
    readable(found)
}

/// The headers of an upstream response kept for caching, each looked up
/// under its lower-case name, else its canonical name, and kept when its
/// value reads as text; the ETag loses its surrounding quotes.
pub fn capture_response_headers(headers: &Vec<(String, String)>) -> (r: CapturedHeaders)
    ensures
        opt_view(r.content_type) == readable_header(headers@, "content-type"@, "Content-Type"@),
        opt_view(r.etag) == match readable_header(headers@, "etag"@, "ETag"@) {
            Some(v) => Some(trim_quotes(v)),
            None => None,
        },
        opt_view(r.last_modified) == readable_header(headers@, "last-modified"@, "Last-Modified"@),
        opt_view(r.cache_control) == readable_header(headers@, "cache-control"@, "Cache-Control"@),
{
    let mut captured = CapturedHeaders::new();
    captured.content_type = capture_header(headers, "content-type", "Content-Type");
    captured.etag = match capture_header(headers, "etag", "ETag") {
        Some(e) => Some(trim_quote_chars(e.as_str())),
        None => None,
    };
    captured.last_modified = capture_header(headers, "last-modified", "Last-Modified");
    captured.cache_control = capture_header(headers, "cache-control", "Cache-Control");
    captured
}

/// The cache entry of a response: its body, its Content-Type (else
/// `application/octet-stream`), its ETag (else empty), its Last-Modified,
/// and the lifetime `ttl`.
pub fn build_cache_entry(data: Vec<u8>, headers: &CapturedHeaders, ttl: Duration) -> (r: CacheEntry)
    ensures
        r.data@ == data@,
        r.content_type@ == match opt_view(headers.content_type) {
            Some(c) => c,
            None => "application/octet-stream"@,
        },
        r.etag@ == match opt_view(headers.etag) {
            Some(e) => e,
            None => Seq::<char>::empty(),
        },
        opt_view(r.last_modified) == opt_view(headers.last_modified),
        r.ttl == Some(ttl),
{
    let content_type = match &headers.content_type {
        Some(c) => c.clone(),
        None => to_string("application/octet-stream"),
    };
    let etag = match &headers.etag {
        Some(e) => e.clone(),
        None => String::new(),
    };
    let last_modified = match &headers.last_modified {
        Some(l) => Some(l.clone()),
        None => None,
    };
    CacheEntry::new(data, content_type, etag, last_modified, Some(ttl))
}

/// Outcome of buffering a chunk of the response body.
#[derive(Debug, Clone, PartialEq, Eq, Structural)]
pub enum BufferResult {
    /// The chunk was appended; the buffer now holds `total_size` bytes.
    Buffered { total_size: usize },
    /// The chunk would bring the buffer to `attempted_size` bytes, more
    /// than allowed; nothing was appended.
    ExceededMaxSize { attempted_size: usize },
    /// The chunk was empty.
    Empty,
}

/// Outcome of storing a response in the cache.
#[derive(Debug, Clone)]
pub enum CachePopulationResult {
    /// Stored under `key` for `ttl`.
    Cached { key: CacheKey, ttl: Duration },
    /// Not stored because of the `Cache-Control` header.
    SkippedByDirective { cache_control: String },
    /// No cache is configured.
    NotConfigured,
}

/// Outcome of an image optimization.
#[derive(Debug, Clone)]
pub enum OptimizationResult {
    /// The optimized image and its content type.
    Optimized { data: Vec<u8>, content_type: String },
    /// The optimization failed; the unmodified image is served.
    Failed { message: String },
    /// No optimization was asked for.
    NotRequested,
}

/// Outcome of handing a chunk to the followers of a coalesced request.
#[derive(Debug, Clone)]
pub enum BroadcastResult {
    /// The chunk was sent.
    Sent,
    /// Nobody was waiting.
    NoFollowers,
    /// Sending failed.
    Failed { message: String },
}

/// Appends a body chunk to the buffer when the total stays within
/// `max_size`; an empty chunk changes nothing.
pub fn buffer_response_chunk(buffer: &mut Vec<u8>, chunk: &[u8], max_size: usize) -> (r: BufferResult)
    requires
        old(buffer)@.len() + chunk@.len() <= usize::MAX,
    ensures
        chunk@.len() == 0 ==> r == BufferResult::Empty && final(buffer)@ == old(buffer)@,
        chunk@.len() > 0 && old(buffer)@.len() + chunk@.len() <= max_size ==> r
            == (BufferResult::Buffered { total_size: (old(buffer)@.len() + chunk@.len()) as usize })
            && final(buffer)@ == old(buffer)@ + chunk@,
        chunk@.len() > 0 && old(buffer)@.len() + chunk@.len() > max_size ==> r
            == (BufferResult::ExceededMaxSize {
            attempted_size: (old(buffer)@.len() + chunk@.len()) as usize,
        }) && final(buffer)@ == old(buffer)@,
{
    if chunk.len() == 0 {
        return BufferResult::Empty;
    }
    let new_size = buffer.len() + chunk.len();
    if new_size <= max_size {
        let mut i: usize = 0;
        while i < chunk.len()
            invariant
                i <= chunk@.len(),
                buffer@ == old(buffer)@ + chunk@.take(i as int),
            decreases chunk@.len() - i,
        {
            buffer.push(chunk[i]);
            assert(chunk@.take(i + 1) =~= chunk@.take(i as int).push(chunk@[i as int]));
            i = i + 1;
        }
        assert(chunk@.take(chunk@.len() as int) =~= chunk@);
        BufferResult::Buffered { total_size: new_size }
    } else {
        BufferResult::ExceededMaxSize { attempted_size: new_size }
    }
}

/// The cache key of an object: bucket, object key and variant, no ETag.
pub fn build_cache_key(bucket: &str, object_key: &str, variant: Option<String>) -> (r: CacheKey)
    ensures
        r.bucket@ == bucket@,
        r.object_key@ == object_key@,
        r.etag is None,
        r.variant == variant,
{
    CacheKey { bucket: to_string(bucket), object_key: to_string(object_key), etag: None, variant }
}

/// Whether the captured headers allow caching the response.
pub fn should_cache_response(headers: &CapturedHeaders) -> (r: bool)
    ensures
        r == may_store(captured_directives(*headers)),
{
    headers.should_cache()
}

/// How long the response stays fresh: the directives' lifetime, else one
/// hour.
pub fn get_effective_ttl(headers: &CapturedHeaders) -> (r: Duration)
    ensures
        match lifetime_secs(captured_directives(*headers)) {
            Some(v) => r == duration_from_secs_spec(v),
            None => r == duration_from_secs_spec(DEFAULT_CACHE_TTL_SECS),
        },
{
    headers.effective_ttl(default_cache_ttl())
}

/// Whether a content type names an image format the optimizer handles:
/// it starts with `image/` and mentions jpeg, jpg, png, webp, gif or avif,
/// in any letter case.
pub open spec fn optimizable_image(content_type: Seq<char>) -> bool {
    let ct = fold_seq(content_type);
    has_prefix(ct, "image/"@) && (has_infix(ct, "jpeg"@) || has_infix(ct, "jpg"@) || has_infix(
        ct,
        "png"@,
    ) || has_infix(ct, "webp"@) || has_infix(ct, "gif"@) || has_infix(ct, "avif"@))
}

/// Whether a content type names an image format the optimizer handles.
pub fn is_optimizable_image(content_type: &str) -> (r: bool)
    ensures
        r == optimizable_image(content_type@),
{
    let ct = fold_of(content_type);
    let s = ct.as_slice();
    chars_starts_with(s, chars_of("image/").as_slice()) && (chars_contains(
        s,
        chars_of("jpeg").as_slice(),
    ) || chars_contains(s, chars_of("jpg").as_slice()) || chars_contains(
        s,
        chars_of("png").as_slice(),
    ) || chars_contains(s, chars_of("webp").as_slice()) || chars_contains(
        s,
        chars_of("gif").as_slice(),
    ) || chars_contains(s, chars_of("avif").as_slice()))
}

} // verus!
