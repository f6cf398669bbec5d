//! Open Policy Agent integration: client settings, the input of a policy
//! query and the decision read from OPA's answer.

use vstd::prelude::*;
use crate::text::{opt_view, opt_str_view};

verus! {

/// Declares `serde_json::Value`, a JSON document, carried through as is.
#[verifier::external_type_specification]
#[verifier::external_body]
pub struct ExJsonValue(serde_json::Value);

/// Wrapper of `serde_json::Value::Object(serde_json::Map::new())`: the
/// empty JSON object. Nothing is claimed of the value beyond its type.
#[verifier::external_body]
pub(crate) fn empty_json_object() -> (r: serde_json::Value) {
    serde_json::Value::Object(serde_json::Map::new())
}

/// Settings of an OPA client.
#[derive(Debug, Clone)]
pub struct OpaClientConfig {
    /// Base URL of the OPA server.
    pub url: String,
    /// Path of the policy decision.
    pub policy_path: String,
    /// Request timeout in milliseconds.
    pub timeout_ms: u64,
    /// Lifetime of cached decisions in seconds.
    pub cache_ttl_seconds: u64,
}

/// A client of one OPA server.
pub struct OpaClient {
    config: OpaClientConfig,
}

impl OpaClient {
    /// The settings of the client.
    pub closed spec fn settings(self) -> OpaClientConfig {
        self.config
    }

    /// A client with the given settings.
    pub fn new(config: OpaClientConfig) -> (r: Self)
        ensures
            r.settings() == config,
    {
        OpaClient { config }
    }

    /// The settings of the client.
    pub fn config(&self) -> (r: &OpaClientConfig)
        ensures
            *r == self.settings(),
    {
        &self.config
    }
}

/// What a policy decides on: the caller's claims, the bucket, the path,
/// the method and the client address.
#[derive(Debug)]
pub struct OpaInput {
    jwt_claims: serde_json::Value,
    bucket: String,
    path: String,
    method: String,
    client_ip: Option<String>,
}

impl OpaInput {
    /// The bucket.
    pub closed spec fn bucket_view(self) -> Seq<char> {
        self.bucket@
    }

    /// The path.
    pub closed spec fn path_view(self) -> Seq<char> {
        self.path@
    }

    /// The method.
    pub closed spec fn method_view(self) -> Seq<char> {
        self.method@
    }

    /// The client address.
    pub closed spec fn client_ip_view(self) -> Option<Seq<char>> {
        opt_view(self.client_ip)
    }

    /// The claims.
    pub closed spec fn claims_view(self) -> serde_json::Value {
        self.jwt_claims
    }

    /// An input with the given parts.
    pub fn new(
        jwt_claims: serde_json::Value,
        bucket: String,
        path: String,
        method: String,
        client_ip: Option<String>,
    ) -> (r: Self)
        ensures
            r.claims_view() == jwt_claims,
            r.bucket_view() == bucket@,
            r.path_view() == path@,
            r.method_view() == method@,
            r.client_ip_view() == opt_view(client_ip),
    {
        OpaInput { jwt_claims, bucket, path, method, client_ip }
    }

    /// The caller's claims.
    pub fn jwt_claims(&self) -> (r: &serde_json::Value)
        ensures
            *r == self.claims_view(),
    {
        &self.jwt_claims
    }

    /// The bucket.
    pub fn bucket(&self) -> (r: &str)
        ensures
            r@ == self.bucket_view(),
    {
        self.bucket.as_str()
    }

    /// The path.
    pub fn path(&self) -> (r: &str)
        ensures
            r@ == self.path_view(),
    {
        self.path.as_str()
    }

    /// The method.
    pub fn method(&self) -> (r: &str)
        ensures
            r@ == self.method_view(),
    {
        self.method.as_str()
    }

    /// The client address.
    pub fn client_ip(&self) -> (r: Option<&str>)
        ensures
            opt_str_view(r) == self.client_ip_view(),
    {
        match &self.client_ip {
            Some(s) => Some(s.as_str()),
            None => None,
        }
    }
}

/// A policy query: `{"input": ...}`.
#[derive(Debug)]
pub struct OpaRequest {
    input: OpaInput,
}

impl OpaRequest {
    /// The input of the query.
    pub closed spec fn input_view(self) -> OpaInput {
        self.input
    }

    /// A query wrapping the given input.
    pub fn new(input: OpaInput) -> (r: Self)
        ensures
            r.input_view() == input,
    {
        OpaRequest { input }
    }

    /// The input of the query.
    pub fn input(&self) -> (r: &OpaInput)
        ensures
            *r == self.input_view(),
    {
        &self.input
    }
}

/// The `result` member of an OPA answer, as far as the decision reads it.
#[derive(Debug, Clone)]
pub enum OpaResultValue {
    /// `true` or `false`.
    Bool(bool),
    /// An object; its `allow` member when it is a boolean, its `reason`
    /// member when it is a string.
    Object { allow: Option<bool>, reason: Option<String> },
    /// Anything else, `null` included.
    Other,
}

/// The decision of an OPA answer.
#[derive(Debug, Clone)]
pub struct OpaResponse {
    allow: bool,
    reason: Option<String>,
}

impl OpaResponse {
    /// Whether the request is allowed.
    pub closed spec fn allowed(self) -> bool {
        self.allow
    }

    /// The reason given, if any.
    pub closed spec fn reason_view(self) -> Option<Seq<char>> {
        opt_view(self.reason)
    }

    /// The decision an answer's `result` carries: a boolean is the
    /// decision; an object allows when its `allow` is `true` and may give a
    /// reason; anything else denies.
    pub fn from_result(result: OpaResultValue) -> (r: Self)
        ensures
            match result {
                OpaResultValue::Bool(b) => r.allowed() == b && r.reason_view() is None,
                OpaResultValue::Object { allow, reason } => r.allowed() == (allow == Some(true))
                    && r.reason_view() == opt_view(reason),
                OpaResultValue::Other => !r.allowed() && r.reason_view() is None,
            },
    {
        match result {
            OpaResultValue::Bool(b) => OpaResponse { allow: b, reason: None },
            OpaResultValue::Object { allow, reason } => OpaResponse {
                allow: match allow {
                    Some(a) => a,
                    None => false,
                },
                reason,
            },
            OpaResultValue::Other => OpaResponse { allow: false, reason: None },
        }
    }

    /// Whether the request is allowed.
    pub fn is_allowed(&self) -> (r: bool)
        ensures
            r == self.allowed(),
    {
        self.allow
    }

    /// The reason given, if any.
    pub fn reason(&self) -> (r: Option<&str>)
        ensures
            opt_str_view(r) == self.reason_view(),
    {
        match &self.reason {
            Some(s) => Some(s.as_str()),
            None => None,
        }
    }
}

} // verus!
