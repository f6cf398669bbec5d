//! Start-up of the proxy's shared state from its configuration: the rate
//! limit manager, the retry policies of the buckets, and the OPA and
//! OpenFGA clients of the buckets that are authorized by them.

use vstd::prelude::*;
use crate::config::{BucketConfig, RateLimitConfig};
use crate::labels::LabelMap;
use crate::retry::RetryPolicy;
use crate::labels::{label_insert, lemma_label_insert_related};
use crate::opa::{OpaClient, OpaClientConfig};
use crate::openfga::{BuilderView, OpenFgaClient, settings_error};
use crate::text::{opt_view, str_eq};
use crate::time::duration_from_millis_spec;
use crate::rate_limit::{RateLimitManager, RateLimitView, initial_view, per_second_quota};
use governor::Quota;

verus! {

/// The bucket limiters configured by a list of buckets, in order: each
/// bucket with a nonzero rate adds (or replaces) the limiter of its name.
pub open spec fn configured_bucket_limits(buckets: Seq<BucketConfig>) -> Seq<(Seq<char>, Quota)>
    decreases buckets.len(),
{
    if buckets.len() == 0 {
        Seq::empty()
    } else {
        let before = configured_bucket_limits(buckets.drop_last());
        let b = buckets.last();
        match b.s3.rate_limit {
            Some(rps) => if rps > 0 {
                label_insert(before, b.name@, per_second_quota(rps))
            } else {
                before
            },
            None => before,
        }
    }
}

/// The manager a rate limit configuration starts with.
pub open spec fn configured_manager(config: RateLimitConfig, buckets: Seq<BucketConfig>) -> RateLimitView {
    RateLimitView {
        buckets: configured_bucket_limits(buckets),
        ..initial_view(config.global_rps, config.per_ip_rps, None)
    }
}

/// The rate limit manager of a configuration: none when rate limiting is
/// not configured or not enabled; otherwise one with the global and
/// per-IP rates and a limiter for each bucket with a rate. (Its periodic
/// cleanup is started by the caller.)
pub fn initialize_rate_limit_manager(rate_limit: &Option<RateLimitConfig>, buckets: &Vec<BucketConfig>) -> (r:
    Option<RateLimitManager>)
    ensures
        match rate_limit {
            None => r is None,
            Some(c) => if c.enabled {
                r matches Some(m) && m@ == configured_manager(*c, buckets@)
            } else {
                r is None
            },
        },
{
    let config = match rate_limit {
        None => return None,
        Some(c) => c,
    };
    if !config.enabled {
        return None;
    }
    let mut manager = RateLimitManager::new(config.global_rps, config.per_ip_rps);
    let mut i: usize = 0;
    while i < buckets.len()
        invariant
            i <= buckets@.len(),
            manager@ == (RateLimitView {
                buckets: configured_bucket_limits(buckets@.take(i as int)),
                ..initial_view(config.global_rps, config.per_ip_rps, None)
            }),
        decreases buckets.len() - i,
    {
        assert(buckets@.take(i + 1).drop_last() =~= buckets@.take(i as int));
        let bucket = &buckets[i];
        if let Some(rps) = bucket.s3.rate_limit {
            manager.add_bucket_limiter(bucket.name.clone(), rps);
        }
        i = i + 1;
    }
    assert(buckets@.take(buckets@.len() as int) =~= buckets@);
    Some(manager)
}

/// The retry policy of each bucket, in order of first appearance: the
/// bucket's own, else `default_policy` (a later bucket of the same name
/// replaces the policy of an earlier one).
pub open spec fn configured_retry_policies(buckets: Seq<BucketConfig>, default_policy: RetryPolicy) -> Seq<
    (Seq<char>, RetryPolicy),
>
    decreases buckets.len(),
{
    if buckets.len() == 0 {
        Seq::empty()
    } else {
        let b = buckets.last();
        label_insert(
            configured_retry_policies(buckets.drop_last(), default_policy),
            b.name@,
            match b.s3.retry {
                Some(p) => p,
                None => default_policy,
            },
        )
    }
}

/// The retry policy of every bucket: its configured one, else
/// `default_policy`.
pub fn initialize_retry_policies(buckets: &Vec<BucketConfig>, default_policy: &RetryPolicy) -> (r: LabelMap<
    RetryPolicy,
>)
    ensures
        r@ == configured_retry_policies(buckets@, *default_policy),
{
    let mut policies: LabelMap<RetryPolicy> = LabelMap::new();
    let mut i: usize = 0;
    while i < buckets.len()
        invariant
            i <= buckets@.len(),
            policies@ == configured_retry_policies(buckets@.take(i as int), *default_policy),
        decreases buckets.len() - i,
    {
        assert(buckets@.take(i + 1).drop_last() =~= buckets@.take(i as int));
        let bucket = &buckets[i];
        let policy = match bucket.s3.retry {
            Some(p) => p,
            None => *default_policy,
        };
        policies.insert(bucket.name.as_str(), policy);
        i = i + 1;
    }
    assert(buckets@.take(buckets@.len() as int) =~= buckets@);
    policies
}

/// The OPA client settings of a bucket: it asks for authorization of type
/// `"opa"` and names both an OPA URL and a policy path.
pub open spec fn opa_settings(b: BucketConfig) -> Option<OpaClientConfig> {
    match b.authorization {
        Some(a) => if a.auth_type@ == "opa"@ {
            match a.opa_url {
                Some(url) => match a.opa_policy_path {
                    Some(policy_path) => Some(
                        OpaClientConfig {
                            url,
                            policy_path,
                            timeout_ms: a.opa_timeout_ms,
                            cache_ttl_seconds: a.opa_cache_ttl_seconds,
                        },
                    ),
                    None => None,
                },
                None => None,
            }
        } else {
            None
        },
        None => None,
    }
}

/// The OPA client settings of each bucket that has them, by bucket name
/// (a later bucket of the same name replaces an earlier one).
pub open spec fn configured_opa(buckets: Seq<BucketConfig>) -> Seq<(Seq<char>, OpaClientConfig)>
    decreases buckets.len(),
{
    if buckets.len() == 0 {
        Seq::empty()
    } else {
        let before = configured_opa(buckets.drop_last());
        match opa_settings(buckets.last()) {
            Some(c) => label_insert(before, buckets.last().name@, c),
            None => before,
        }
    }
}

/// The longest decision lifetime among the buckets' OPA settings, 0 when
/// there is none.
pub open spec fn max_opa_ttl(buckets: Seq<BucketConfig>) -> u64
    decreases buckets.len(),
{
    if buckets.len() == 0 {
        0
    } else {
        let before = max_opa_ttl(buckets.drop_last());
        match opa_settings(buckets.last()) {
            Some(c) => if c.cache_ttl_seconds > before {
                c.cache_ttl_seconds
            } else {
                before
            },
            None => before,
        }
    }
}

/// Clients with the given settings, label by label.
pub open spec fn opa_clients_match(
    clients: Seq<(Seq<char>, OpaClient)>,
    configs: Seq<(Seq<char>, OpaClientConfig)>,
) -> bool {
    &&& clients.len() == configs.len()
    &&& forall|i: int|
        0 <= i < clients.len() ==> (#[trigger] clients[i]).0 == configs[i].0 && clients[i].1.settings()
            == configs[i].1
}

/// The lifetime of the shared OPA decision cache: none without an OPA
/// client; otherwise the longest configured lifetime, at least 60
/// seconds.
pub open spec fn opa_cache_ttl(buckets: Seq<BucketConfig>) -> Option<u64> {
    if configured_opa(buckets).len() == 0 {
        None
    } else if max_opa_ttl(buckets) > 60 {
        Some(max_opa_ttl(buckets))
    } else {
        Some(60)
    }
}

/// The OPA client settings a bucket asks for.
fn bucket_opa_settings(b: &BucketConfig) -> (r: Option<OpaClientConfig>)
    ensures
        r == opa_settings(*b),
{
    match &b.authorization {
        Some(a) => if str_eq(a.auth_type.as_str(), "opa") {
            match (&a.opa_url, &a.opa_policy_path) {
                (Some(url), Some(policy_path)) => Some(
                    OpaClientConfig {
                        url: url.clone(),
                        policy_path: policy_path.clone(),
                        timeout_ms: a.opa_timeout_ms,
                        cache_ttl_seconds: a.opa_cache_ttl_seconds,
                    },
                ),
                _ => None,
            }
        } else {
            None
        },
        None => None,
    }
}

/// The OPA client of every bucket authorized by OPA, by bucket name, and
/// the lifetime of the decision cache they share (see `opa_cache_ttl`).
pub fn initialize_opa_clients(buckets: &Vec<BucketConfig>) -> (r: (LabelMap<OpaClient>, Option<u64>))
    ensures
        opa_clients_match(r.0@, configured_opa(buckets@)),
        r.1 == opa_cache_ttl(buckets@),
{
    let mut clients: LabelMap<OpaClient> = LabelMap::new();
    let mut max_ttl: u64 = 0;
    let mut i: usize = 0;
    while i < buckets.len()
        invariant
            i <= buckets@.len(),
            opa_clients_match(clients@, configured_opa(buckets@.take(i as int))),
            max_ttl == max_opa_ttl(buckets@.take(i as int)),
        decreases buckets.len() - i,
    {
        assert(buckets@.take(i + 1).drop_last() =~= buckets@.take(i as int));
        let bucket = &buckets[i];
        if let Some(settings) = bucket_opa_settings(bucket) {
            if settings.cache_ttl_seconds > max_ttl {
                max_ttl = settings.cache_ttl_seconds;
            }
            let ghost before = clients@;
            let client = OpaClient::new(settings);
            proof {
                lemma_label_insert_related(
                    before,
                    configured_opa(buckets@.take(i as int)),
                    bucket.name@,
                    client,
                    client.settings(),
                    |c: OpaClient, k: OpaClientConfig| c.settings() == k,
                );
            }
            clients.insert(bucket.name.as_str(), client);
        }
        i = i + 1;
    }
    assert(buckets@.take(buckets@.len() as int) =~= buckets@);
    let cache_ttl = if clients.len() == 0 {
        None
    } else if max_ttl > 60 {
        Some(max_ttl)
    } else {
        Some(60)
    };
    (clients, cache_ttl)
}

/// The OpenFGA builder settings of a bucket: it asks for authorization of
/// type `"openfga"` and names both an endpoint and a store id; the token,
/// the model id and the timeout come along.
pub open spec fn openfga_settings(b: BucketConfig) -> Option<BuilderView> {
    match b.authorization {
        Some(a) => if a.auth_type@ == "openfga"@ {
            match a.openfga_endpoint {
                Some(endpoint) => match a.openfga_store_id {
                    Some(store_id) => Some(
                        BuilderView {
                            endpoint: endpoint@,
                            store_id: store_id@,
                            authorization_model_id: opt_view(a.openfga_authorization_model_id),
                            api_token: opt_view(a.openfga_api_token),
                            timeout_ms: a.openfga_timeout_ms,
                        },
                    ),
                    None => None,
                },
                None => None,
            }
        } else {
            None
        },
        None => None,
    }
}

/// The OpenFGA settings of each bucket whose client builds (an empty
/// endpoint or store id is refused and the bucket skipped), by bucket
/// name.
pub open spec fn configured_openfga(buckets: Seq<BucketConfig>) -> Seq<(Seq<char>, BuilderView)>
    decreases buckets.len(),
{
    if buckets.len() == 0 {
        Seq::empty()
    } else {
        let before = configured_openfga(buckets.drop_last());
        match openfga_settings(buckets.last()) {
            Some(v) => if settings_error(v.endpoint, v.store_id) is None {
                label_insert(before, buckets.last().name@, v)
            } else {
                before
            },
            None => before,
        }
    }
}

/// A client built from these builder settings.
pub open spec fn built_from(c: OpenFgaClient, v: BuilderView) -> bool {
    &&& c.endpoint_view() == v.endpoint
    &&& c.store_id_view() == v.store_id
    &&& c.model_id_view() == v.authorization_model_id
    &&& c.api_token_view() == v.api_token
    &&& c.timeout_view() == duration_from_millis_spec(v.timeout_ms)
}

/// Clients built from the given settings, label by label.
pub open spec fn openfga_clients_match(
    clients: Seq<(Seq<char>, OpenFgaClient)>,
    settings: Seq<(Seq<char>, BuilderView)>,
) -> bool {
    &&& clients.len() == settings.len()
    &&& forall|i: int|
        0 <= i < clients.len() ==> (#[trigger] clients[i]).0 == settings[i].0 && built_from(
            clients[i].1,
            settings[i].1,
        )
}

/// The OpenFGA builder of a bucket, when it asks for one.
fn bucket_openfga_builder(b: &BucketConfig) -> (r: Option<crate::openfga::OpenFgaClientBuilder>)
    ensures
        match openfga_settings(*b) {
            Some(v) => r matches Some(builder) && builder@ == v,
            None => r is None,
        },
{
    match &b.authorization {
        Some(a) => if str_eq(a.auth_type.as_str(), "openfga") {
            match (&a.openfga_endpoint, &a.openfga_store_id) {
                (Some(endpoint), Some(store_id)) => {
                    let mut builder = OpenFgaClient::builder(endpoint.as_str(), store_id.as_str());
                    if let Some(token) = &a.openfga_api_token {
                        builder = builder.api_token(token.as_str());
                    }
                    if let Some(model_id) = &a.openfga_authorization_model_id {
                        builder = builder.authorization_model_id(model_id.as_str());
                    }
                    builder = builder.timeout_ms(a.openfga_timeout_ms);
                    Some(builder)
                },
                _ => None,
            }
        } else {
            None
        },
        None => None,
    }
}

/// The OpenFGA client of every bucket authorized by OpenFGA whose client
/// builds, by bucket name.
pub fn initialize_openfga_clients(buckets: &Vec<BucketConfig>) -> (r: LabelMap<OpenFgaClient>)
    ensures
        openfga_clients_match(r@, configured_openfga(buckets@)),
{
    let mut clients: LabelMap<OpenFgaClient> = LabelMap::new();
    let mut i: usize = 0;
    while i < buckets.len()
        invariant
            i <= buckets@.len(),
            openfga_clients_match(clients@, configured_openfga(buckets@.take(i as int))),
        decreases buckets.len() - i,
    {
        assert(buckets@.take(i + 1).drop_last() =~= buckets@.take(i as int));
        let bucket = &buckets[i];
        if let Some(builder) = bucket_openfga_builder(bucket) {
            let ghost v = builder@;
            match builder.build() {
                Ok(client) => {
                    let ghost before = clients@;
                    proof {
                        lemma_label_insert_related(
                            before,
                            configured_openfga(buckets@.take(i as int)),
                            bucket.name@,
                            client,
                            v,
                            |c: OpenFgaClient, w: BuilderView| built_from(c, w),
                        );
                    }
                    clients.insert(bucket.name.as_str(), client);
                },
                Err(_) => {},
            }
        }
        i = i + 1;
    }
    assert(buckets@.take(buckets@.len() as int) =~= buckets@);
    clients
}

} // verus!
