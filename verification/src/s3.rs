//! Unsigned S3 object requests.

use vstd::prelude::*;
use crate::text::to_string;

verus! {

/// An S3 object request before signing.
#[derive(Debug, Clone)]
pub struct S3Request {
    /// HTTP method ("GET" or "HEAD").
    pub method: String,
    /// S3 bucket name.
    pub bucket: String,
    /// Object key.
    pub key: String,
    /// AWS region.
    pub region: String,
}

/// The request with the given method, bucket, key and region.
pub open spec fn s3_request_is(
    r: S3Request,
    method: Seq<char>,
    bucket: Seq<char>,
    key: Seq<char>,
    region: Seq<char>,
) -> bool {
    r.method@ == method && r.bucket@ == bucket && r.key@ == key && r.region@ == region
}

/// A GetObject request.
pub fn build_get_object_request(bucket: &str, key: &str, region: &str) -> (r: S3Request)
    ensures
        s3_request_is(r, "GET"@, bucket@, key@, region@),
{
    S3Request {
        method: to_string("GET"),
        bucket: to_string(bucket),
        key: to_string(key),
        region: to_string(region),
    }
}

/// A HeadObject request.
pub fn build_head_object_request(bucket: &str, key: &str, region: &str) -> (r: S3Request)
    ensures
        s3_request_is(r, "HEAD"@, bucket@, key@, region@),
{
    S3Request {
        method: to_string("HEAD"),
        bucket: to_string(bucket),
        key: to_string(key),
        region: to_string(region),
    }
}

} // verus!
