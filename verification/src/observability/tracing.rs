//! Request timings and tracing errors.

use vstd::prelude::*;
use crate::text::{push_str, to_string};

verus! {

/// Time spent by a request, in milliseconds, in total and per phase.
#[derive(Debug, Clone, Copy, Default, PartialEq, Eq, Structural)]
pub struct RequestTiming {
    /// Whole request.
    pub total_ms: u64,
    /// Authentication.
    pub auth_ms: Option<u64>,
    /// Cache lookup.
    pub cache_ms: Option<u64>,
    /// S3 request.
    pub s3_ms: Option<u64>,
    /// Time not attributed to a phase.
    pub other_ms: Option<u64>,
}

impl RequestTiming {
    /// No time recorded.
    pub fn new() -> (r: Self)
        ensures
            r == (RequestTiming { total_ms: 0, auth_ms: None, cache_ms: None, s3_ms: None, other_ms: None }),
    {
        RequestTiming { total_ms: 0, auth_ms: None, cache_ms: None, s3_ms: None, other_ms: None }
    }

    /// The same timing with the given total.
    pub fn with_total(self, ms: u64) -> (r: Self)
        ensures
            r == (RequestTiming { total_ms: ms, ..self }),
    {
        RequestTiming { total_ms: ms, ..self }
    }

    /// The same timing with the given authentication time.
    pub fn with_auth(self, ms: u64) -> (r: Self)
        ensures
            r == (RequestTiming { auth_ms: Some(ms), ..self }),
    {
        RequestTiming { auth_ms: Some(ms), ..self }
    }

    /// The same timing with the given cache time.
    pub fn with_cache(self, ms: u64) -> (r: Self)
        ensures
            r == (RequestTiming { cache_ms: Some(ms), ..self }),
    {
        RequestTiming { cache_ms: Some(ms), ..self }
    }

    /// The same timing with the given S3 time.
    pub fn with_s3(self, ms: u64) -> (r: Self)
        ensures
            r == (RequestTiming { s3_ms: Some(ms), ..self }),
    {
        RequestTiming { s3_ms: Some(ms), ..self }
    }
}

/// Failure to set up tracing.
#[derive(Debug, Clone)]
pub enum TracingError {
    /// The configuration is invalid.
    ConfigError(String),
    /// The tracer could not be installed.
    InitError(String),
    /// The exporter could not be created.
    ExporterError(String),
}

/// The text of a tracing error.
pub open spec fn tracing_error_text(e: TracingError) -> Seq<char> {
    match e {
        TracingError::ConfigError(m) => "Configuration error: "@ + m@,
        TracingError::InitError(m) => "Failed to initialize tracer: "@ + m@,
        TracingError::ExporterError(m) => "Failed to create exporter: "@ + m@,
    }
}

impl TracingError {
    /// The text of the error.
    pub fn message(&self) -> (r: String)
        ensures
            r@ == tracing_error_text(*self),
    {
        let (prefix, m) = match self {
            TracingError::ConfigError(m) => ("Configuration error: ", m),
            TracingError::InitError(m) => ("Failed to initialize tracer: ", m),
            TracingError::ExporterError(m) => ("Failed to create exporter: ", m),
        };
        let mut out = to_string(prefix);
        push_str(&mut out, m.as_str());
        out
    }
}

} // verus!
