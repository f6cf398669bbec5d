//! Verified core of an S3 read-only proxy: request classification, retry
//! and backoff decisions, endpoint parsing, metrics bookkeeping and the
//! text formats the proxy emits.

pub mod config;
pub mod proxy;
pub mod replica_set;
pub mod retry;
pub mod s3;
pub mod text;
pub mod time;
pub mod labels;
pub mod metrics;
pub mod prometheus;
pub mod exposition;
pub mod json;
pub mod security;
pub mod circuit_breaker;
pub mod cache;
pub mod observability;
pub mod pipeline;
pub mod opa;
pub mod openfga;
pub mod rate_limit;
