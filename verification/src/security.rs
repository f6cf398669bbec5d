//! Request limits and attack-pattern checks applied to every request
//! before routing: URI length, header size, body size, path traversal
//! and SQL injection.

use vstd::prelude::*;
use crate::text::{has_infix, ascii_lower_seq, chars_of, chars_ascii_lower, chars_contains,
    u64_to_decimal, push_str, decimal};

verus! {

/// Size limits applied to incoming requests.
#[derive(Clone, Copy, Debug, PartialEq, Eq, Structural)]
pub struct SecurityLimits {
    /// Largest accepted request body, in bytes.
    pub max_body_size: usize,
    /// Largest accepted total of header names and values, in bytes.
    pub max_header_size: usize,
    /// Longest accepted request URI, in bytes.
    pub max_uri_length: usize,
}

impl Default for SecurityLimits {
    /// 10 MiB of body, 64 KiB of headers, 8192 bytes of URI.
    fn default() -> (r: Self)
        ensures
            r.max_body_size == 10 * 1024 * 1024,
            r.max_header_size == 64 * 1024,
            r.max_uri_length == 8192,
    {
        SecurityLimits {
            max_body_size: 10 * 1024 * 1024,
            max_header_size: 64 * 1024,
            max_uri_length: 8192,
        }
    }
}

/// Why a request was refused.
#[derive(Clone, Copy, Debug, PartialEq, Eq, Structural)]
pub enum SecurityError {
    /// The URI has `length` bytes, more than `limit`.
    UriTooLong { length: usize, limit: usize },
    /// The headers total `size` bytes, more than `limit`.
    HeadersTooLarge { size: usize, limit: usize },
    /// The declared body has `size` bytes, more than `limit`.
    PayloadTooLarge { size: usize, limit: usize },
    /// The URI tries to climb out of the bucket with `..`.
    PathTraversal,
    /// The URI carries an SQL injection pattern.
    SqlInjection,
}

/// The human-readable text of a refusal.
pub open spec fn security_error_text(e: SecurityError) -> Seq<char> {
    match e {
        SecurityError::UriTooLong { length, limit } => "URI too long: "@ + decimal(length as nat)
            + " bytes exceeds limit of "@ + decimal(limit as nat) + " bytes"@,
        SecurityError::HeadersTooLarge { size, limit } => "Request headers too large: "@ + decimal(
            size as nat,
        ) + " bytes exceeds limit of "@ + decimal(limit as nat) + " bytes"@,
        SecurityError::PayloadTooLarge { size, limit } => "Request body too large: "@ + decimal(
            size as nat,
        ) + " bytes exceeds limit of "@ + decimal(limit as nat) + " bytes"@,
        SecurityError::PathTraversal => "Path traversal attempt detected"@,
        SecurityError::SqlInjection => "SQL injection attempt detected"@,
    }
}

/// Appends `prefix`, `a`, the middle text, `b` and " bytes".
fn size_message(prefix: &str, a: usize, b: usize) -> (r: String)
    ensures
        r@ == prefix@ + decimal(a as nat) + " bytes exceeds limit of "@ + decimal(b as nat)
            + " bytes"@,
{
    let mut out = String::new();
    push_str(&mut out, prefix);
    let sa = u64_to_decimal(a as u64);
    push_str(&mut out, sa.as_str());
    push_str(&mut out, " bytes exceeds limit of ");
    let sb = u64_to_decimal(b as u64);
    push_str(&mut out, sb.as_str());
    push_str(&mut out, " bytes");
    assert(out@ =~= prefix@ + decimal(a as nat) + " bytes exceeds limit of "@ + decimal(b as nat)
        + " bytes"@);
    out
}

impl SecurityError {
    /// The human-readable text of the refusal.
    pub fn message(&self) -> (r: String)
        ensures
            r@ == security_error_text(*self),
    {
        match *self {
            SecurityError::UriTooLong { length, limit } => size_message("URI too long: ", length, limit),
            SecurityError::HeadersTooLarge { size, limit } => size_message(
                "Request headers too large: ",
                size,
                limit,
            ),
            SecurityError::PayloadTooLarge { size, limit } => size_message(
                "Request body too large: ",
                size,
                limit,
            ),
            SecurityError::PathTraversal => String::from_str("Path traversal attempt detected"),
            SecurityError::SqlInjection => String::from_str("SQL injection attempt detected"),
        }
    }
}

/// Refuses a URI longer than `limit` bytes.
pub fn validate_uri_length(uri: &str, limit: usize) -> (r: Result<(), SecurityError>)
    ensures
        uri.len() > limit ==> r == Err::<(), SecurityError>(
            SecurityError::UriTooLong { length: uri.len(), limit },
        ),
        uri.len() <= limit ==> r is Ok,
{
    let length = uri.len();
    if length > limit {
        Err(SecurityError::UriTooLong { length, limit })
    } else {
        Ok(())
    }
}

/// Refuses headers totalling more than `limit` bytes.
pub fn validate_header_size(total_size: usize, limit: usize) -> (r: Result<(), SecurityError>)
    ensures
        total_size > limit ==> r == Err::<(), SecurityError>(
            SecurityError::HeadersTooLarge { size: total_size, limit },
        ),
        total_size <= limit ==> r is Ok,
{
    if total_size > limit {
        Err(SecurityError::HeadersTooLarge { size: total_size, limit })
    } else {
        Ok(())
    }
}

/// Refuses a declared body larger than `limit` bytes; a request without
/// a declared length passes.
pub fn validate_body_size(content_length: Option<usize>, limit: usize) -> (r: Result<
    (),
    SecurityError,
>)
    ensures
        match content_length {
            Some(size) => if size > limit {
                r == Err::<(), SecurityError>(SecurityError::PayloadTooLarge { size, limit })
            } else {
                r is Ok
            },
            None => r is Ok,
        },
{
    match content_length {
        Some(size) => if size > limit {
            Err(SecurityError::PayloadTooLarge { size, limit })
        } else {
            Ok(())
        },
        None => Ok(()),
    }
}

/// The lower-case patterns of a path traversal, plain and percent-encoded.
pub open spec fn traversal_patterns() -> Seq<Seq<char>> {
    seq!["../"@, "..\\"@, "%2e%2e"@, "..%2f"@, "..%5c"@, "%2e./"@, ".%2e/"@]
}

/// The lower-case patterns of an SQL injection, plain and percent-encoded.
pub open spec fn sql_patterns() -> Seq<Seq<char>> {
    seq![
        "' or "@,
        "'or'"@,
        "%27%20or%20"@,
        "%27or%27"@,
        "union select"@,
        "union%20select"@,
        "union+select"@,
        "; drop "@,
        ";drop "@,
        "%3bdrop"@,
        "%3b%20drop"@,
        "'--"@,
        "' --"@,
        "%27--"@,
        "/*"@,
        "*/"@,
        " or 1=1"@,
        "%20or%201=1"@,
        "xp_cmdshell"@,
        "sleep("@,
        "benchmark("@,
    ]
}

/// Whether the lower-cased `s` contains one of `patterns`.
pub open spec fn contains_any(s: Seq<char>, patterns: Seq<Seq<char>>) -> bool {
    exists|i: int| 0 <= i < patterns.len() && has_infix(ascii_lower_seq(s), #[trigger] patterns[i])
}

fn traversal_pattern_list() -> (r: Vec<&'static str>)
    ensures
        r@.len() == traversal_patterns().len(),
        forall|i: int| 0 <= i < r@.len() ==> (#[trigger] r@[i])@ == traversal_patterns()[i],
{
    vec!["../", "..\\", "%2e%2e", "..%2f", "..%5c", "%2e./", ".%2e/"]
}

fn sql_pattern_list() -> (r: Vec<&'static str>)
    ensures
        r@.len() == sql_patterns().len(),
        forall|i: int| 0 <= i < r@.len() ==> (#[trigger] r@[i])@ == sql_patterns()[i],
{
    vec![
        "' or ",
        "'or'",
        "%27%20or%20",
        "%27or%27",
        "union select",
        "union%20select",
        "union+select",
        "; drop ",
        ";drop ",
        "%3bdrop",
        "%3b%20drop",
        "'--",
        "' --",
        "%27--",
        "/*",
        "*/",
        " or 1=1",
        "%20or%201=1",
        "xp_cmdshell",
        "sleep(",
        "benchmark(",
    ]
}

/// Whether the ASCII-lower-cased `s` contains one of `patterns`.
fn matches_any(s: &str, patterns: &Vec<&'static str>, Ghost(spec_patterns): Ghost<Seq<Seq<char>>>) -> (r: bool)
    requires
        patterns@.len() == spec_patterns.len(),
        forall|i: int| 0 <= i < patterns@.len() ==> (#[trigger] patterns@[i])@ == spec_patterns[i],
    ensures
        r == contains_any(s@, spec_patterns),
{
    let lower = chars_ascii_lower(chars_of(s).as_slice());
    let mut i: usize = 0;
    while i < patterns.len()
        invariant
            i <= patterns@.len(),
            patterns@.len() == spec_patterns.len(),
            forall|k: int| 0 <= k < patterns@.len() ==> (#[trigger] patterns@[k])@ == spec_patterns[k],
            lower@ == ascii_lower_seq(s@),
            forall|k: int| 0 <= k < i ==> !has_infix(ascii_lower_seq(s@), #[trigger] spec_patterns[k]),
        decreases patterns@.len() - i,
    {
        let p = chars_of(patterns[i]);
        if chars_contains(lower.as_slice(), p.as_slice()) {
            assert(has_infix(ascii_lower_seq(s@), spec_patterns[i as int]));
            return true;
        }
        i = i + 1;
    }
    false
}

/// Refuses a URI with a path traversal pattern (`../`, `..\` or one of
/// their percent-encoded forms), in any letter case.
pub fn check_path_traversal(uri: &str) -> (r: Result<(), SecurityError>)
    ensures
        contains_any(uri@, traversal_patterns()) ==> r == Err::<(), SecurityError>(
            SecurityError::PathTraversal,
        ),
        !contains_any(uri@, traversal_patterns()) ==> r is Ok,
{
    let patterns = traversal_pattern_list();
    if matches_any(uri, &patterns, Ghost(traversal_patterns())) {
        Err(SecurityError::PathTraversal)
    } else {
        Ok(())
    }
}

/// Refuses a URI with an SQL injection pattern, in any letter case.
pub fn check_sql_injection(uri: &str) -> (r: Result<(), SecurityError>)
    ensures
        contains_any(uri@, sql_patterns()) ==> r == Err::<(), SecurityError>(
            SecurityError::SqlInjection,
        ),
        !contains_any(uri@, sql_patterns()) ==> r is Ok,
{
    let patterns = sql_pattern_list();
    if matches_any(uri, &patterns, Ghost(sql_patterns())) {
        Err(SecurityError::SqlInjection)
    } else {
        Ok(())
    }
}

} // verus!
