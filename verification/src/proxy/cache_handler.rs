//! Serving from the cache: conditional requests, cache hit responses and
//! 304 responses.

use vstd::prelude::*;
use crate::cache::{CacheEntry, CacheKey};
use crate::text::{opt_view, to_string, str_eq, clone_opt};

verus! {

/// Outcome of checking a request's validators against a cached entry.
#[derive(Debug, Clone)]
pub enum ConditionalResult {
    /// The client's ETag is current: answer 304 with it.
    NotModifiedByEtag { etag: String },
    /// The client's date is current: answer 304 with it (and the ETag, when
    /// the entry has one).
    NotModifiedByDate { last_modified: String, etag: Option<String> },
    /// The client's copy is stale or absent: serve the entry.
    Modified,
}

/// The response prepared from a cache hit.
#[derive(Debug, Clone)]
pub struct CacheHitResponse {
    /// 200 for a full response, 304 for a conditional one.
    pub status: u16,
    /// Content-Type header value.
    pub content_type: String,
    /// ETag header value.
    pub etag: String,
    /// Last-Modified header value.
    pub last_modified: Option<String>,
    /// Content-Length header value.
    pub content_length: usize,
    /// Body (none for HEAD requests and 304 responses).
    pub body: Option<Vec<u8>>,
}

/// Kind of request coalescer configured for a bucket.
#[derive(Debug, Clone, Copy, PartialEq, Eq, Structural)]
pub enum Coalescer {
    /// Followers wait for the leader's complete response.
    Buffered,
    /// Followers receive the leader's response as it streams.
    Streaming,
}

/// Whether a streaming coalescer is configured.
pub fn has_streaming_coalescer(coalescer: Option<&Coalescer>) -> (r: bool)
    ensures
        r == (coalescer == Some(&Coalescer::Streaming)),
{
    match coalescer {
        Some(Coalescer::Streaming) => true,
        _ => false,
    }
}

/// What a conditional request gets for a cached entry: `If-None-Match`
/// equal to the entry's ETag wins first; otherwise `If-Modified-Since`
/// equal to the entry's Last-Modified; otherwise the entry is served.
pub open spec fn conditional_outcome(
    entry: CacheEntry,
    if_none_match: Option<Seq<char>>,
    if_modified_since: Option<Seq<char>>,
    r: ConditionalResult,
) -> bool {
    if if_none_match == Some(entry.etag@) {
        r matches ConditionalResult::NotModifiedByEtag { etag } && etag@ == entry.etag@
    } else if entry.last_modified is Some && if_modified_since == Some(entry.last_modified->0@) {
        r matches ConditionalResult::NotModifiedByDate { last_modified, etag } && last_modified@
            == entry.last_modified->0@ && opt_view(etag) == (if entry.etag@.len() > 0 {
            Some(entry.etag@)
        } else {
            None
        })
    } else {
        r is Modified
    }
}

/// Law: a conditional request gets a 304 only for a validator that equals
/// the cached one. A 304 by ETag needs an `If-None-Match` equal to the
/// entry's ETag, and answers with that ETag; a 304 by date needs no such
/// ETag match and an `If-Modified-Since` equal to the entry's
/// Last-Modified, and answers with that Last-Modified (and the ETag, when
/// the entry has a non-empty one). When neither
/// validator equals the entry's, the entry is served in full.
pub proof fn law_conditional_needs_matching_validator(
    entry: CacheEntry,
    if_none_match: Option<Seq<char>>,
    if_modified_since: Option<Seq<char>>,
    r: ConditionalResult,
)
    requires
        conditional_outcome(entry, if_none_match, if_modified_since, r),
    ensures
        r matches ConditionalResult::NotModifiedByEtag { etag } ==> if_none_match == Some(entry.etag@)
            && etag@ == entry.etag@,
        r matches ConditionalResult::NotModifiedByDate { last_modified, etag } ==> {
            &&& if_none_match != Some(entry.etag@)
            &&& entry.last_modified is Some
            &&& if_modified_since == Some(entry.last_modified->0@)
            &&& last_modified@ == entry.last_modified->0@
            &&& (etag is Some <==> entry.etag@.len() > 0)
            &&& (etag matches Some(t) ==> t@ == entry.etag@)
        },
        if_none_match != Some(entry.etag@) && entry.last_modified is Some && if_modified_since == Some(
            entry.last_modified->0@,
        ) ==> r is NotModifiedByDate,
        if_none_match == Some(entry.etag@) ==> r is NotModifiedByEtag,
        if_none_match != Some(entry.etag@) && (entry.last_modified is None || if_modified_since != Some(
            entry.last_modified->0@,
        )) ==> r is Modified,
{
}

/// Checks a request's `If-None-Match` and `If-Modified-Since` values
/// against a cached entry (exact comparison).
pub fn handle_conditional_request(
    entry: &CacheEntry,
    if_none_match: Option<&str>,
    if_modified_since: Option<&str>,
) -> (r: ConditionalResult)
    ensures
        conditional_outcome(
            *entry,
            crate::text::opt_str_view(if_none_match),
            crate::text::opt_str_view(if_modified_since),
            r,
        ),
{
    if let Some(client_etag) = if_none_match {
        if str_eq(client_etag, entry.etag.as_str()) {
            return ConditionalResult::NotModifiedByEtag { etag: entry.etag.clone() };
        }
    }
    if let Some(client_modified_since) = if_modified_since {
        if let Some(last_modified) = &entry.last_modified {
            if str_eq(client_modified_since, last_modified.as_str()) {
                let etag = if !entry.etag.as_str().is_empty() {
                    Some(entry.etag.clone())
                } else {
                    None
                };
                return ConditionalResult::NotModifiedByDate {
                    last_modified: last_modified.clone(),
                    etag,
                };
            }
        }
    }
    ConditionalResult::Modified
}

/// A 200 response from a cached entry; the body is left out for HEAD.
pub fn serve_from_cache(entry: &CacheEntry, is_head_request: bool) -> (r: CacheHitResponse)
    ensures
        r.status == 200,
        r.content_type@ == entry.content_type@,
        r.etag@ == entry.etag@,
        opt_view(r.last_modified) == opt_view(entry.last_modified),
        r.content_length == entry.data@.len(),
        is_head_request ==> r.body is None,
        !is_head_request ==> (r.body matches Some(b) && b@ == entry.data@),
{
    CacheHitResponse {
        status: 200,
        content_type: entry.content_type.clone(),
        etag: entry.etag.clone(),
        last_modified: clone_opt(&entry.last_modified),
        content_length: entry.data.len(),
        body: if is_head_request {
            None
        } else {
            Some(entry.data.clone())
        },
    }
}

/// A 304 Not Modified response with the given validators.
pub fn build_not_modified_response(etag: Option<String>, last_modified: Option<String>) -> (r:
    CacheHitResponse)
    ensures
        r.status == 304,
        r.content_type@.len() == 0,
        r.etag@ == (match etag {
            Some(e) => e@,
            None => Seq::<char>::empty(),
        }),
        r.last_modified == last_modified,
        r.content_length == 0,
        r.body is None,
{
    CacheHitResponse {
        status: 304,
        content_type: String::new(),
        etag: match etag {
            Some(e) => e,
            None => String::new(),
        },
        last_modified,
        content_length: 0,
        body: None,
    }
}

/// The cache key of an object: bucket, object key and variant, no ETag.
pub fn build_cache_key(bucket: &str, object_key: &str, variant: Option<String>) -> (r: CacheKey)
    ensures
        r.bucket@ == bucket@,
        r.object_key@ == object_key@,
        r.etag is None,
        r.variant == variant,
{
    CacheKey { bucket: to_string(bucket), object_key: to_string(object_key), etag: None, variant }
}

/// The value of the first header with exactly the given name.
pub open spec fn header_value(headers: Seq<(String, String)>, name: Seq<char>) -> Option<Seq<char>>
    decreases headers.len(),
{
    if headers.len() == 0 {
        None
    } else {
        match header_value(headers.drop_last(), name) {
            Some(v) => Some(v),
            None => if headers.last().0@ == name {
                Some(headers.last().1@)
            } else {
                None
            },
        }
    }
}

/// A header looked up under its canonical name, else its lower-case name.
pub open spec fn either_header(headers: Seq<(String, String)>, canonical: Seq<char>, lower: Seq<char>) -> Option<
    Seq<char>,
> {
    match header_value(headers, canonical) {
        Some(v) => Some(v),
        None => header_value(headers, lower),
    }
}

/// The value of the first header with exactly the given name.
pub(crate) fn find_header(headers: &Vec<(String, String)>, name: &str) -> (r: Option<String>)
    ensures
        opt_view(r) == header_value(headers@, name@),
{
    let mut i: usize = 0;
    while i < headers.len()
        invariant
            i <= headers@.len(),
            header_value(headers@.take(i as int), name@) is None,
        decreases headers@.len() - i,
    {
        assert(headers@.take(i + 1).drop_last() =~= headers@.take(i as int));
        if str_eq(headers[i].0.as_str(), name) {
            proof {
                lemma_header_value_prefix(headers@, name@, i + 1);
            }
            return Some(headers[i].1.clone());
        }
        i = i + 1;
    }
    assert(headers@.take(headers@.len() as int) =~= headers@);
    None
}

/// A header found in a prefix of the list is the header of the list.
proof fn lemma_header_value_prefix(headers: Seq<(String, String)>, name: Seq<char>, k: int)
    requires
        0 <= k <= headers.len(),
        header_value(headers.take(k), name) is Some,
    ensures
        header_value(headers, name) == header_value(headers.take(k), name),
    decreases headers.len(),
{
    if k < headers.len() {
        assert(headers.drop_last().take(k) =~= headers.take(k));
        lemma_header_value_prefix(headers.drop_last(), name, k);
    } else {
        assert(headers.take(k) =~= headers);
    }
}

/// The request's `If-None-Match` and `If-Modified-Since` values, each
/// looked up under its canonical name, else its lower-case name.
pub fn extract_conditional_headers(headers: &Vec<(String, String)>) -> (r: (
    Option<String>,
    Option<String>,
))
    ensures
        opt_view(r.0) == either_header(headers@, "If-None-Match"@, "if-none-match"@),
        opt_view(r.1) == either_header(headers@, "If-Modified-Since"@, "if-modified-since"@),
{
    let if_none_match = match find_header(headers, "If-None-Match") {
        Some(v) => Some(v),
        None => find_header(headers, "if-none-match"),
    };
    let if_modified_since = match find_header(headers, "If-Modified-Since") {
        Some(v) => Some(v),
        None => find_header(headers, "if-modified-since"),
    };
    (if_none_match, if_modified_since)
}

} // verus!
