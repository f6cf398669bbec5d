//! Upstream request preparation: credentials, replica selection, S3
//! request building and parsing of custom endpoints.

use vstd::prelude::*;
use std::time::Duration;
use crate::config::{BucketConfig, S3Config, same_s3_config};
use crate::replica_set::{ReplicaEntry, ReplicaSet};
use crate::s3::{S3Request, build_get_object_request, build_head_object_request, s3_request_is};
use crate::text::{opt_view, opt_str_view, before_char, trim_prefix_all, has_prefix, find_char, parse_unsigned, to_string, string_from_chars, chars_of, chars_trim_prefix_all, push_str, clone_opt, str_eq, chars_before, eq_ignore_ascii_case, eq_ignore_ascii_case_spec, starts_with, lemma_find_from, chars_find, chars_slice, parse_unsigned_chars};
use crate::time::{duration_from_secs, duration_from_secs_spec};

verus! {

broadcast use vstd::string::group_string_axioms;

/// S3 credentials extracted from configuration.
#[derive(Debug, Clone)]
pub struct S3Credentials {
    /// S3 bucket name.
    pub bucket: String,
    /// AWS region.
    pub region: String,
    /// Access key ID.
    pub access_key: String,
    /// Secret access key.
    pub secret_key: String,
    /// Custom endpoint (for MinIO, etc.). None for AWS S3.
    pub endpoint: Option<String>,
    /// Connection timeout in seconds.
    pub timeout: u64,
}

/// Credentials that carry exactly the values of a configuration.
pub open spec fn creds_from(c: S3Credentials, cfg: S3Config) -> bool {
    &&& c.bucket@ == cfg.bucket@
    &&& c.region@ == cfg.region@
    &&& c.access_key@ == cfg.access_key@
    &&& c.secret_key@ == cfg.secret_key@
    &&& opt_view(c.endpoint) == opt_view(cfg.endpoint)
    &&& c.timeout == cfg.timeout
}

/// The AWS S3 virtual-hosted host name of a bucket:
/// `{bucket}.s3.{region}.amazonaws.com`.
pub open spec fn aws_host(bucket: Seq<char>, region: Seq<char>) -> Seq<char> {
    bucket + ".s3."@ + region + ".amazonaws.com"@
}

/// A custom endpoint with every leading `http://` and then every leading
/// `https://` removed.
pub open spec fn strip_scheme(e: Seq<char>) -> Seq<char> {
    trim_prefix_all(trim_prefix_all(e, "http://"@), "https://"@)
}

/// `localhost` in place of an empty host.
pub open spec fn or_localhost(h: Seq<char>) -> Seq<char> {
    if h.len() == 0 {
        "localhost"@
    } else {
        h
    }
}

/// The host used for request signing: for a custom endpoint, the host
/// name alone (the scheme-stripped endpoint cut at the first `/`, then
/// before the first `:`, or `localhost` when that is empty); for AWS S3,
/// the virtual-hosted host name.
pub open spec fn signing_host(
    endpoint: Option<Seq<char>>,
    bucket: Seq<char>,
    region: Seq<char>,
) -> Seq<char> {
    match endpoint {
        Some(e) => or_localhost(before_char(before_char(strip_scheme(e), '/'), ':')),
        None => aws_host(bucket, region),
    }
}

/// The request path: `/{bucket}/{key}` (path style) for a custom endpoint,
/// `/{key}` for AWS S3.
pub open spec fn uri_path_spec(custom: bool, bucket: Seq<char>, key: Seq<char>) -> Seq<char> {
    if custom {
        "/"@ + bucket + "/"@ + key
    } else {
        "/"@ + key
    }
}

/// Default port: 443 with TLS, 80 without.
pub open spec fn default_port(tls: bool) -> u16 {
    if tls {
        443
    } else {
        80
    }
}

/// Host, port and TLS flag of an endpoint. Without a custom endpoint this
/// is the AWS host on 443 with TLS. A custom endpoint uses TLS when it
/// starts with `https://`; its scheme-stripped text is cut at the first
/// `/`, then split at the first `:` into host and port. An empty host
/// becomes `localhost`; a missing or unparsable port becomes the default
/// port.
pub open spec fn endpoint_spec(endpoint: Option<Seq<char>>, bucket: Seq<char>, region: Seq<char>) -> (
    Seq<char>,
    u16,
    bool,
) {
    match endpoint {
        None => (aws_host(bucket, region), 443, true),
        Some(e) => {
            let tls = has_prefix(e, "https://"@);
            let hp = before_char(strip_scheme(e), '/');
            match find_char(hp, ':') {
                Some(i) => {
                    let port = match parse_unsigned(hp.skip((i + 1) as int), 65535) {
                        Some(v) => v as u16,
                        None => default_port(tls),
                    };
                    (or_localhost(hp.take(i as int)), port, tls)
                },
                None => (or_localhost(hp), default_port(tls), tls),
            }
        },
    }
}

/// `host` with `localhost` in place of an empty host.
fn localhost_if_empty(h: Vec<char>) -> (r: String)
    ensures
        r@ == or_localhost(h@),
{
    if h.len() == 0 {
        to_string("localhost")
    } else {
        string_from_chars(&h)
    }
}

/// The scheme-stripped characters of an endpoint.
fn strip_scheme_chars(e: &str) -> (r: Vec<char>)
    ensures
        r@ == strip_scheme(e@),
{
    proof {
        reveal_strlit("http://");
        reveal_strlit("https://");
    }
    let ev = chars_of(e);
    let http = chars_of("http://");
    let https = chars_of("https://");
    let t1 = chars_trim_prefix_all(&ev, &http);
    chars_trim_prefix_all(&t1, &https)
}

/// The AWS S3 host name of a bucket.
fn build_aws_host(bucket: &str, region: &str) -> (r: String)
    ensures
        r@ == aws_host(bucket@, region@),
{
    let mut h = to_string(bucket);
    push_str(&mut h, ".s3.");
    push_str(&mut h, region);
    push_str(&mut h, ".amazonaws.com");
    h
}

impl S3Credentials {
    /// Create credentials from S3Config.
    pub fn from_s3_config(config: &S3Config) -> (r: Self)
        ensures
            creds_from(r, *config),
    {
        S3Credentials {
            bucket: config.bucket.clone(),
            region: config.region.clone(),
            access_key: config.access_key.clone(),
            secret_key: config.secret_key.clone(),
            endpoint: clone_opt(&config.endpoint),
            timeout: config.timeout,
        }
    }

    /// Check if this is a custom endpoint (MinIO, etc.).
    pub fn is_custom_endpoint(&self) -> (r: bool)
        ensures
            r == self.endpoint is Some,
    {
        self.endpoint.is_some()
    }

    /// Get the host for AWS Signature V4 signing: the endpoint's host
    /// without port for custom endpoints, `bucket.s3.region.amazonaws.com`
    /// for AWS S3.
    pub fn host_for_signing(&self) -> (r: String)
        ensures
            r@ == signing_host(opt_view(self.endpoint), self.bucket@, self.region@),
    {
        match &self.endpoint {
            Some(custom_endpoint) => {
                let stripped = strip_scheme_chars(custom_endpoint.as_str());
                let host_port = chars_before(&stripped, '/');
                let host = chars_before(&host_port, ':');
                localhost_if_empty(host)
            },
            None => build_aws_host(self.bucket.as_str(), self.region.as_str()),
        }
    }

    /// Get the URI path for S3 requests: `/bucket/key` for custom
    /// endpoints, `/key` for AWS S3 (the bucket is in the Host header).
    pub fn uri_path(&self, s3_key: &str) -> (r: String)
        ensures
            r@ == uri_path_spec(self.endpoint is Some, self.bucket@, s3_key@),
    {
        let mut p = to_string("/");
        if self.endpoint.is_some() {
            push_str(&mut p, self.bucket.as_str());
            push_str(&mut p, "/");
        }
        push_str(&mut p, s3_key);
        p
    }
}

/// Result of replica selection.
#[derive(Debug, Clone)]
pub enum ReplicaSelection {
    /// A healthy replica was selected.
    Selected {
        /// The selected replica's name.
        replica_name: String,
        /// Credentials from the selected replica.
        credentials: S3Credentials,
    },
    /// No healthy replicas available.
    AllUnhealthy,
    /// No replica set configured for this bucket.
    NotConfigured,
}

/// Upstream peer configuration ready to create an HTTP peer.
#[derive(Debug, Clone)]
pub struct UpstreamPeerConfig {
    /// Endpoint hostname or IP.
    pub endpoint: String,
    /// Port number.
    pub port: u16,
    /// Whether to use TLS.
    pub use_tls: bool,
    /// Connection timeout.
    pub connection_timeout: Duration,
    /// Read timeout.
    pub read_timeout: Duration,
    /// Write timeout.
    pub write_timeout: Duration,
}

/// Position of the first replica set registered for a bucket name.
pub open spec fn find_set(sets: Seq<(String, ReplicaSet)>, name: Seq<char>) -> Option<int>
    decreases sets.len(),
{
    if sets.len() == 0 {
        None
    } else {
        match find_set(sets.drop_last(), name) {
            Some(i) => Some(i),
            None => if sets.last().0@ == name {
                Some(sets.len() - 1)
            } else {
                None
            },
        }
    }
}

/// Position of the first replica with the given name.
pub open spec fn find_named(replicas: Seq<ReplicaEntry>, name: Seq<char>) -> Option<int>
    decreases replicas.len(),
{
    if replicas.len() == 0 {
        None
    } else {
        match find_named(replicas.drop_last(), name) {
            Some(i) => Some(i),
            None => if replicas.last().name@ == name {
                Some(replicas.len() - 1)
            } else {
                None
            },
        }
    }
}

/// Position of the first replica whose circuit breaker lets requests
/// through.
pub open spec fn find_healthy(replicas: Seq<ReplicaEntry>) -> Option<int>
    decreases replicas.len(),
{
    if replicas.len() == 0 {
        None
    } else {
        match find_healthy(replicas.drop_last()) {
            Some(i) => Some(i),
            None => if replicas.last().accepts_requests {
                Some(replicas.len() - 1)
            } else {
                None
            },
        }
    }
}

proof fn lemma_find_set(sets: Seq<(String, ReplicaSet)>, name: Seq<char>)
    ensures
        find_set(sets, name) matches Some(i) ==> 0 <= i < sets.len() && sets[i].0@ == name,
    decreases sets.len(),
{
    if sets.len() > 0 {
        lemma_find_set(sets.drop_last(), name);
    }
}

proof fn lemma_find_named(replicas: Seq<ReplicaEntry>, name: Seq<char>)
    ensures
        find_named(replicas, name) matches Some(i) ==> 0 <= i < replicas.len() && replicas[i].name@
            == name,
    decreases replicas.len(),
{
    if replicas.len() > 0 {
        lemma_find_named(replicas.drop_last(), name);
    }
}

proof fn lemma_find_healthy(replicas: Seq<ReplicaEntry>)
    ensures
        find_healthy(replicas) matches Some(i) ==> 0 <= i < replicas.len()
            && replicas[i].accepts_requests,
        find_healthy(replicas) is None ==> forall|j: int|
            0 <= j < replicas.len() ==> !(#[trigger] replicas[j]).accepts_requests,
    decreases replicas.len(),
{
    if replicas.len() > 0 {
        lemma_find_healthy(replicas.drop_last());
        assert forall|j: int| 0 <= j < replicas.len() - 1 implies #[trigger] replicas[j]
            == replicas.drop_last()[j] by {}
    }
}

/// The replica set registered for a bucket.
pub(crate) fn lookup_set<'a>(sets: &'a Vec<(String, ReplicaSet)>, name: &str) -> (r: Option<&'a ReplicaSet>)
    ensures
        match find_set(sets@, name@) {
            Some(i) => r == Some(&sets@[i].1),
            None => r is None,
        },
{
    let mut i: usize = 0;
    while i < sets.len()
        invariant
            i <= sets.len(),
            find_set(sets@.take(i as int), name@) is None,
        decreases sets.len() - i,
    {
        assert(sets@.take(i + 1).drop_last() == sets@.take(i as int));
        if str_eq(sets[i].0.as_str(), name) {
            assert(find_set(sets@.take(i + 1), name@) == Some(i as int));
            proof {
                lemma_find_prefix_set(sets@, name@, i + 1);
            }
            return Some(&sets[i].1);
        }
        i = i + 1;
    }
    assert(sets@.take(sets@.len() as int) == sets@);
    None
}

/// A match found in a prefix is the match of the whole sequence.
proof fn lemma_find_prefix_set(sets: Seq<(String, ReplicaSet)>, name: Seq<char>, k: int)
    requires
        0 <= k <= sets.len(),
        find_set(sets.take(k), name) is Some,
    ensures
        find_set(sets, name) == find_set(sets.take(k), name),
    decreases sets.len() - k,
{
    if k < sets.len() {
        assert(sets.take(k + 1).drop_last() == sets.take(k));
        lemma_find_prefix_set(sets, name, k + 1);
    } else {
        assert(sets.take(k) == sets);
    }
}

proof fn lemma_find_prefix_named(replicas: Seq<ReplicaEntry>, name: Seq<char>, k: int)
    requires
        0 <= k <= replicas.len(),
        find_named(replicas.take(k), name) is Some,
    ensures
        find_named(replicas, name) == find_named(replicas.take(k), name),
    decreases replicas.len() - k,
{
    if k < replicas.len() {
        assert(replicas.take(k + 1).drop_last() == replicas.take(k));
        lemma_find_prefix_named(replicas, name, k + 1);
    } else {
        assert(replicas.take(k) == replicas);
    }
}

proof fn lemma_find_prefix_healthy(replicas: Seq<ReplicaEntry>, k: int)
    requires
        0 <= k <= replicas.len(),
        find_healthy(replicas.take(k)) is Some,
    ensures
        find_healthy(replicas) == find_healthy(replicas.take(k)),
    decreases replicas.len() - k,
{
    if k < replicas.len() {
        assert(replicas.take(k + 1).drop_last() == replicas.take(k));
        lemma_find_prefix_healthy(replicas, k + 1);
    } else {
        assert(replicas.take(k) == replicas);
    }
}

/// The first replica with the given name.
fn lookup_named<'a>(set: &'a ReplicaSet, name: &str) -> (r: Option<&'a ReplicaEntry>)
    ensures
        match find_named(set.replicas@, name@) {
            Some(i) => r == Some(&set.replicas@[i]),
            None => r is None,
        },
{
    let mut i: usize = 0;
    while i < set.replicas.len()
        invariant
            i <= set.replicas.len(),
            find_named(set.replicas@.take(i as int), name@) is None,
        decreases set.replicas.len() - i,
    {
        assert(set.replicas@.take(i + 1).drop_last() == set.replicas@.take(i as int));
        if str_eq(set.replicas[i].name.as_str(), name) {
            assert(find_named(set.replicas@.take(i + 1), name@) == Some(i as int));
            proof {
                lemma_find_prefix_named(set.replicas@, name@, i + 1);
            }
            return Some(&set.replicas[i]);
        }
        i = i + 1;
    }
    assert(set.replicas@.take(set.replicas@.len() as int) == set.replicas@);
    None
}

/// The S3 configuration credentials come from: the named replica's, when
/// a replica name is given and the bucket's replica set holds a replica of
/// that name; otherwise the bucket's own.
pub open spec fn credentials_source(
    bucket: BucketConfig,
    sets: Seq<(String, ReplicaSet)>,
    replica_name: Option<Seq<char>>,
) -> S3Config {
    match replica_name {
        Some(n) => match find_set(sets, bucket.name@) {
            Some(si) => match find_named(sets[si].1.replicas@, n) {
                Some(ri) => sets[si].1.replicas@[ri].config,
                None => bucket.s3,
            },
            None => bucket.s3,
        },
        None => bucket.s3,
    }
}

/// With no set registered under `name`, none is found.
proof fn lemma_find_set_none(sets: Seq<(String, ReplicaSet)>, name: Seq<char>)
    requires
        forall|j: int| 0 <= j < sets.len() ==> (#[trigger] sets[j]).0@ != name,
    ensures
        find_set(sets, name) is None,
    decreases sets.len(),
{
    if sets.len() > 0 {
        assert forall|j: int| 0 <= j < sets.drop_last().len() implies (#[trigger] sets.drop_last()[j]).0@
            != name by {
            assert(sets.drop_last()[j] == sets[j]);
        }
        lemma_find_set_none(sets.drop_last(), name);
    }
}

/// The first set registered under `name` is the one found.
proof fn lemma_find_set_first(sets: Seq<(String, ReplicaSet)>, name: Seq<char>, i: int)
    requires
        0 <= i < sets.len(),
        sets[i].0@ == name,
        forall|j: int| 0 <= j < i ==> (#[trigger] sets[j]).0@ != name,
    ensures
        find_set(sets, name) == Some(i),
    decreases sets.len(),
{
    let d = sets.drop_last();
    if i < sets.len() - 1 {
        assert(d[i] == sets[i]);
        assert forall|j: int| 0 <= j < i implies (#[trigger] d[j]).0@ != name by {
            assert(d[j] == sets[j]);
        }
        lemma_find_set_first(d, name, i);
    } else {
        assert forall|j: int| 0 <= j < d.len() implies (#[trigger] d[j]).0@ != name by {
            assert(d[j] == sets[j]);
        }
        lemma_find_set_none(d, name);
    }
}

/// With no replica named `name`, none is found.
proof fn lemma_find_named_none(replicas: Seq<ReplicaEntry>, name: Seq<char>)
    requires
        forall|j: int| 0 <= j < replicas.len() ==> (#[trigger] replicas[j]).name@ != name,
    ensures
        find_named(replicas, name) is None,
    decreases replicas.len(),
{
    if replicas.len() > 0 {
        assert forall|j: int| 0 <= j < replicas.drop_last().len() implies (
        #[trigger] replicas.drop_last()[j]).name@ != name by {
            assert(replicas.drop_last()[j] == replicas[j]);
        }
        lemma_find_named_none(replicas.drop_last(), name);
    }
}

/// The first replica named `name` is the one found.
proof fn lemma_find_named_first(replicas: Seq<ReplicaEntry>, name: Seq<char>, i: int)
    requires
        0 <= i < replicas.len(),
        replicas[i].name@ == name,
        forall|j: int| 0 <= j < i ==> (#[trigger] replicas[j]).name@ != name,
    ensures
        find_named(replicas, name) == Some(i),
    decreases replicas.len(),
{
    let d = replicas.drop_last();
    if i < replicas.len() - 1 {
        assert(d[i] == replicas[i]);
        assert forall|j: int| 0 <= j < i implies (#[trigger] d[j]).name@ != name by {
            assert(d[j] == replicas[j]);
        }
        lemma_find_named_first(d, name, i);
    } else {
        assert forall|j: int| 0 <= j < d.len() implies (#[trigger] d[j]).name@ != name by {
            assert(d[j] == replicas[j]);
        }
        lemma_find_named_none(d, name);
    }
}

/// Law: the credentials of a request served by a named replica come from
/// that replica. When the replica set registered under the bucket's own
/// name (the first one) holds a replica with the given name (the first
/// one), its configuration is the source. Without a replica name, or when
/// the bucket has no set, or its set has no replica of that name, the
/// bucket's own configuration is.
pub proof fn law_credentials_follow_named_replica(
    bucket: BucketConfig,
    sets: Seq<(String, ReplicaSet)>,
    replica_name: Seq<char>,
    si: int,
    ri: int,
)
    ensures
        (0 <= si < sets.len() && sets[si].0@ == bucket.name@ && (forall|j: int|
            0 <= j < si ==> (#[trigger] sets[j]).0@ != bucket.name@) && 0 <= ri < sets[si].1.replicas@.len()
            && sets[si].1.replicas@[ri].name@ == replica_name && (forall|k: int|
            0 <= k < ri ==> (#[trigger] sets[si].1.replicas@[k]).name@ != replica_name)) ==> credentials_source(
            bucket,
            sets,
            Some(replica_name),
        ) == sets[si].1.replicas@[ri].config,
        credentials_source(bucket, sets, None) == bucket.s3,
        (forall|j: int| 0 <= j < sets.len() ==> (#[trigger] sets[j]).0@ != bucket.name@) ==> credentials_source(
            bucket,
            sets,
            Some(replica_name),
        ) == bucket.s3,
        (0 <= si < sets.len() && sets[si].0@ == bucket.name@ && (forall|j: int|
            0 <= j < si ==> (#[trigger] sets[j]).0@ != bucket.name@) && (forall|k: int|
            0 <= k < sets[si].1.replicas@.len() ==> (#[trigger] sets[si].1.replicas@[k]).name@
                != replica_name)) ==> credentials_source(bucket, sets, Some(replica_name)) == bucket.s3,
{
    if 0 <= si < sets.len() && sets[si].0@ == bucket.name@ && (forall|j: int|
        0 <= j < si ==> (#[trigger] sets[j]).0@ != bucket.name@) {
        lemma_find_set_first(sets, bucket.name@, si);
        let rs = sets[si].1.replicas@;
        if 0 <= ri < rs.len() && rs[ri].name@ == replica_name && (forall|k: int|
            0 <= k < ri ==> (#[trigger] rs[k]).name@ != replica_name) {
            lemma_find_named_first(rs, replica_name, ri);
        }
        if forall|k: int| 0 <= k < rs.len() ==> (#[trigger] rs[k]).name@ != replica_name {
            lemma_find_named_none(rs, replica_name);
        }
    }
    if forall|j: int| 0 <= j < sets.len() ==> (#[trigger] sets[j]).0@ != bucket.name@ {
        lemma_find_set_none(sets, bucket.name@);
    }
}

/// Get S3 credentials from the selected replica, falling back to the
/// bucket configuration.
pub fn get_s3_credentials(
    bucket_config: &BucketConfig,
    replica_sets: &Vec<(String, ReplicaSet)>,
    replica_name: Option<&str>,
) -> (r: S3Credentials)
    ensures
        creds_from(r, credentials_source(*bucket_config, replica_sets@, opt_str_view(replica_name))),
{
    if let Some(name) = replica_name {
        if let Some(replica_set) = lookup_set(replica_sets, bucket_config.name.as_str()) {
            if let Some(replica) = lookup_named(replica_set, name) {
                return S3Credentials::from_s3_config(&replica.config);
            }
        }
    }
    S3Credentials::from_s3_config(&bucket_config.s3)
}

/// Select the first replica (in priority order) whose circuit breaker
/// allows requests.
pub fn select_healthy_replica(replica_set: &ReplicaSet) -> (r: Option<&ReplicaEntry>)
    ensures
        match find_healthy(replica_set.replicas@) {
            Some(i) => r == Some(&replica_set.replicas@[i]),
            None => r is None,
        },
{
    let mut i: usize = 0;
    while i < replica_set.replicas.len()
        invariant
            i <= replica_set.replicas.len(),
            find_healthy(replica_set.replicas@.take(i as int)) is None,
        decreases replica_set.replicas.len() - i,
    {
        assert(replica_set.replicas@.take(i + 1).drop_last() == replica_set.replicas@.take(
            i as int,
        ));
        if replica_set.replicas[i].accepts_requests {
            assert(find_healthy(replica_set.replicas@.take(i + 1)) == Some(i as int));
            proof {
                lemma_find_prefix_healthy(replica_set.replicas@, i + 1);
            }
            return Some(&replica_set.replicas[i]);
        }
        i = i + 1;
    }
    assert(replica_set.replicas@.take(replica_set.replicas@.len() as int)
        == replica_set.replicas@);
    None
}

/// Try to select a replica for a bucket: not configured when the bucket
/// has no replica set, all unhealthy when no replica accepts requests,
/// otherwise the first healthy replica with its credentials.
pub fn select_replica(bucket_name: &str, replica_sets: &Vec<(String, ReplicaSet)>) -> (r:
    ReplicaSelection)
    ensures
        match find_set(replica_sets@, bucket_name@) {
            None => r is NotConfigured,
            Some(si) => match find_healthy(replica_sets@[si].1.replicas@) {
                None => r is AllUnhealthy,
                Some(ri) => r matches ReplicaSelection::Selected { replica_name, credentials }
                    && replica_name@ == replica_sets@[si].1.replicas@[ri].name@ && creds_from(
                    credentials,
                    replica_sets@[si].1.replicas@[ri].config,
                ),
            },
        },
{
    let replica_set = match lookup_set(replica_sets, bucket_name) {
        None => {
            return ReplicaSelection::NotConfigured;
        },
        Some(s) => s,
    };
    match select_healthy_replica(replica_set) {
        Some(replica) => ReplicaSelection::Selected {
            replica_name: replica.name.clone(),
            credentials: S3Credentials::from_s3_config(&replica.config),
        },
        None => ReplicaSelection::AllUnhealthy,
    }
}

/// Build an S3 request: HEAD when the method is `HEAD` in any ASCII case
/// (no other character upper-cases to one of `H`, `E`, `A`, `D`), GET
/// otherwise.
pub fn build_s3_request(credentials: &S3Credentials, s3_key: &str, method: &str) -> (r: S3Request)
    ensures
        s3_request_is(
            r,
            if eq_ignore_ascii_case_spec(method@, "HEAD"@) {
                "HEAD"@
            } else {
                "GET"@
            },
            credentials.bucket@,
            s3_key@,
            credentials.region@,
        ),
{
    if eq_ignore_ascii_case(method, "HEAD") {
        build_head_object_request(credentials.bucket.as_str(), s3_key, credentials.region.as_str())
    } else {
        build_get_object_request(credentials.bucket.as_str(), s3_key, credentials.region.as_str())
    }
}

/// Parse endpoint string into host, port, and TLS flag (see
/// [`endpoint_spec`]).
pub fn parse_endpoint(endpoint: Option<&str>, bucket: &str, region: &str) -> (r: (String, u16, bool))
    ensures
        (r.0@, r.1, r.2) == endpoint_spec(opt_str_view(endpoint), bucket@, region@),
{
    match endpoint {
        None => (build_aws_host(bucket, region), 443, true),
        Some(custom_endpoint) => {
            let use_tls = starts_with(custom_endpoint, "https://");
            let stripped = strip_scheme_chars(custom_endpoint);
            let hp = chars_before(&stripped, '/');
            let ghost hps = hp@;
            proof {
                lemma_find_from(hps, ':', 0);
            }
            match chars_find(&hp, ':') {
                Some(i) => {
                    let h = chars_slice(&hp, 0, i);
                    let p = chars_slice(&hp, i + 1, hp.len());
                    assert(p@ == hps.skip(i + 1));
                    let port: u16 = match parse_unsigned_chars(&p, 65535) {
                        Some(v) => v as u16,
                        None => if use_tls {
                            443
                        } else {
                            80
                        },
                    };
                    (localhost_if_empty(h), port, use_tls)
                },
                None => {
                    let port: u16 = if use_tls {
                        443
                    } else {
                        80
                    };
                    (localhost_if_empty(hp), port, use_tls)
                },
            }
        },
    }
}

/// Build upstream peer configuration from credentials: the parsed endpoint
/// with all three timeouts set to the credentials' timeout in seconds.
pub fn build_upstream_peer_config(credentials: &S3Credentials) -> (r: UpstreamPeerConfig)
    ensures
        (r.endpoint@, r.port, r.use_tls) == endpoint_spec(
            opt_view(credentials.endpoint),
            credentials.bucket@,
            credentials.region@,
        ),
        r.connection_timeout == duration_from_secs_spec(credentials.timeout),
        r.read_timeout == duration_from_secs_spec(credentials.timeout),
        r.write_timeout == duration_from_secs_spec(credentials.timeout),
{
    let endpoint_ref: Option<&str> = match &credentials.endpoint {
        Some(e) => Some(e.as_str()),
        None => None,
    };
    let (endpoint, port, use_tls) = parse_endpoint(
        endpoint_ref,
        credentials.bucket.as_str(),
        credentials.region.as_str(),
    );
    let timeout = duration_from_secs(credentials.timeout);
    UpstreamPeerConfig {
        endpoint,
        port,
        use_tls,
        connection_timeout: timeout,
        read_timeout: timeout,
        write_timeout: timeout,
    }
}

/// Law: a credentials lookup without a replica name always uses the
/// bucket's own backend settings, and selecting a replica never picks one
/// whose circuit breaker rejects requests.
pub proof fn law_replica_choice(
    bucket: BucketConfig,
    sets: Seq<(String, ReplicaSet)>,
    replicas: Seq<ReplicaEntry>,
)
    ensures
        credentials_source(bucket, sets, None) == bucket.s3,
        find_healthy(replicas) matches Some(i) ==> replicas[i].accepts_requests,
        find_healthy(replicas) matches Some(i) ==> forall|j: int|
            0 <= j < i ==> !(#[trigger] replicas[j]).accepts_requests,
{
    lemma_find_healthy(replicas);
    if let Some(i) = find_healthy(replicas) {
        lemma_healthy_first(replicas);
    }
}

/// Every replica before the selected one rejects requests.
proof fn lemma_healthy_first(replicas: Seq<ReplicaEntry>)
    ensures
        find_healthy(replicas) matches Some(i) ==> forall|j: int|
            0 <= j < i ==> !(#[trigger] replicas[j]).accepts_requests,
    decreases replicas.len(),
{
    if replicas.len() > 0 {
        let init = replicas.drop_last();
        lemma_healthy_first(init);
        lemma_find_healthy(init);
        assert forall|j: int| 0 <= j < replicas.len() - 1 implies #[trigger] replicas[j]
            == init[j] by {}
    }
}

/// Law: the host and port parsed from an endpoint never leave the host
/// empty, and an endpoint without an explicit port uses 443 with TLS and
/// 80 without.
pub proof fn law_endpoint_defaults(e: Seq<char>, bucket: Seq<char>, region: Seq<char>)
    ensures
        endpoint_spec(Some(e), bucket, region).0.len() > 0,
        find_char(before_char(strip_scheme(e), '/'), ':') is None ==> endpoint_spec(
            Some(e),
            bucket,
            region,
        ).1 == default_port(has_prefix(e, "https://"@)),
{
    reveal_strlit("localhost");
}

} // verus!
