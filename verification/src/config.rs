//! Per-bucket configuration values that the request logic reads.

use vstd::prelude::*;
use crate::text::opt_view;
use crate::retry::RetryPolicy;

verus! {

/// S3 backend settings of a bucket or replica.
#[derive(Debug, Clone)]
pub struct S3Config {
    /// S3 bucket name.
    pub bucket: String,
    /// AWS region.
    pub region: String,
    /// Access key ID.
    pub access_key: String,
    /// Secret access key.
    pub secret_key: String,
    /// Custom endpoint (MinIO and the like); `None` for AWS S3.
    pub endpoint: Option<String>,
    /// Connection timeout in seconds.
    pub timeout: u64,
    /// Requests per second allowed to the bucket, `None` for no limit.
    pub rate_limit: Option<u32>,
    /// Retry policy of the bucket, `None` for the default one.
    pub retry: Option<RetryPolicy>,
}

impl Default for S3Config {
    /// Empty names and keys, no custom endpoint, a 30 second timeout, no
    /// rate limit, the default retry policy.
    fn default() -> (r: Self)
        ensures
            r.bucket@.len() == 0,
            r.region@.len() == 0,
            r.access_key@.len() == 0,
            r.secret_key@.len() == 0,
            r.endpoint is None,
            r.timeout == 30,
            r.rate_limit is None,
            r.retry is None,
    {
        S3Config {
            bucket: String::new(),
            region: String::new(),
            access_key: String::new(),
            secret_key: String::new(),
            endpoint: None,
            timeout: 30,
            rate_limit: None,
            retry: None,
        }
    }
}

/// Server-wide rate limit settings.
#[derive(Debug, Clone)]
pub struct RateLimitConfig {
    /// Whether rate limiting is on.
    pub enabled: bool,
    /// Requests per second allowed in all, `None` for no global limit.
    pub global_rps: Option<u32>,
    /// Requests per second allowed to one client IP, `None` for no limit.
    pub per_ip_rps: Option<u32>,
}

/// Authentication settings of a bucket.
#[derive(Debug, Clone)]
pub struct AuthConfig {
    /// Whether requests to the bucket must authenticate.
    pub enabled: bool,
}

/// Authorization settings of a bucket: an OPA policy or an OpenFGA
/// store decides whether a request is allowed.
#[derive(Debug, Clone)]
pub struct AuthorizationConfig {
    /// Which authorizer decides: `"opa"` or `"openfga"`.
    pub auth_type: String,
    /// Base URL of the OPA server.
    pub opa_url: Option<String>,
    /// Path of the OPA policy decision.
    pub opa_policy_path: Option<String>,
    /// OPA request timeout in milliseconds.
    pub opa_timeout_ms: u64,
    /// Lifetime of cached OPA decisions in seconds.
    pub opa_cache_ttl_seconds: u64,
    /// OpenFGA server endpoint.
    pub openfga_endpoint: Option<String>,
    /// OpenFGA store id.
    pub openfga_store_id: Option<String>,
    /// OpenFGA API token.
    pub openfga_api_token: Option<String>,
    /// OpenFGA authorization model id.
    pub openfga_authorization_model_id: Option<String>,
    /// OpenFGA request timeout in milliseconds.
    pub openfga_timeout_ms: u64,
}

/// Configuration of one bucket served by the proxy.
#[derive(Debug, Clone)]
pub struct BucketConfig {
    /// Bucket name used in routing, metrics and logs.
    pub name: String,
    /// URL path prefix routed to this bucket.
    pub path_prefix: String,
    /// Backend settings.
    pub s3: S3Config,
    /// Authentication settings, `None` for a public bucket.
    pub auth: Option<AuthConfig>,
    /// Authorization settings, `None` when requests are not authorized
    /// further.
    pub authorization: Option<AuthorizationConfig>,
}

/// Two S3 configurations with the same values.
pub open spec fn same_s3_config(a: S3Config, b: S3Config) -> bool {
    &&& a.bucket@ == b.bucket@
    &&& a.region@ == b.region@
    &&& a.access_key@ == b.access_key@
    &&& a.secret_key@ == b.secret_key@
    &&& opt_view(a.endpoint) == opt_view(b.endpoint)
    &&& a.timeout == b.timeout
}

} // verus!
