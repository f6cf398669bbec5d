//! Built-in endpoints: the readiness decision of `/ready` and the
//! `/metrics` response.

use vstd::prelude::*;
use crate::circuit_breaker::CircuitState;
use crate::config::BucketConfig;
use crate::labels::label_insert;
use crate::metrics::{Metrics, MetricsView, prometheus_text};
use crate::proxy::upstream::{find_set, lookup_set};
use crate::replica_set::{ReplicaEntry, ReplicaSet};
use crate::text::{push_str, to_string};

verus! {

/// Response of a built-in endpoint.
#[derive(Debug, Clone)]
pub struct EndpointResponse {
    /// HTTP status code.
    pub status: u16,
    /// Content-Type header value.
    pub content_type: &'static str,
    /// Response body.
    pub body: String,
}

impl EndpointResponse {
    /// A JSON response with the given status and body.
    pub fn json(status: u16, body: String) -> (r: Self)
        ensures
            r.status == status,
            r.content_type@ == "application/json"@,
            r.body@ == body@,
    {
        EndpointResponse { status, content_type: "application/json", body }
    }

    /// A 200 response in the Prometheus text format.
    pub fn prometheus(body: String) -> (r: Self)
        ensures
            r.status == 200,
            r.content_type@ == "text/plain; version=0.0.4"@,
            r.body@ == body@,
    {
        EndpointResponse { status: 200, content_type: "text/plain; version=0.0.4", body }
    }
}

/// The `/metrics` response: the metrics followed by the circuit breaker
/// metrics.
pub fn handle_metrics(metrics: &Metrics, circuit_breaker_metrics: String) -> (r: EndpointResponse)
    ensures
        r.status == 200,
        r.content_type@ == "text/plain; version=0.0.4"@,
        r.body@ == prometheus_text(metrics@) + circuit_breaker_metrics@,
{
    let mut output = metrics.export_prometheus();
    push_str(&mut output, circuit_breaker_metrics.as_str());
    EndpointResponse::prometheus(output)
}

/// Readiness of one bucket.
#[derive(Debug, Clone, Copy, PartialEq, Eq, Structural)]
pub enum BucketReadiness {
    /// Every replica is healthy.
    Ready,
    /// Some replica is unhealthy, at least one is healthy.
    Degraded,
    /// No replica is healthy, or the bucket has no replica set.
    Unavailable,
}

/// A replica is healthy while its circuit breaker is closed.
pub open spec fn replica_healthy(r: ReplicaEntry) -> bool {
    r.circuit_state == CircuitState::Closed
}

/// Whether some replica is healthy.
pub open spec fn has_healthy(rs: Seq<ReplicaEntry>) -> bool {
    exists|i: int| 0 <= i < rs.len() && replica_healthy(#[trigger] rs[i])
}

/// Whether no later replica has the name of replica `i` (the health
/// report keeps one entry per name, the last).
pub open spec fn last_of_name(rs: Seq<ReplicaEntry>, i: int) -> bool {
    forall|j: int| i < j < rs.len() ==> (#[trigger] rs[j]).name@ != rs[i].name@
}

/// Whether every replica that the report shows is healthy.
pub open spec fn all_shown_healthy(rs: Seq<ReplicaEntry>) -> bool {
    forall|i: int| 0 <= i < rs.len() && last_of_name(rs, i) ==> replica_healthy(#[trigger] rs[i])
}

/// The readiness of a bucket with the given replicas.
pub open spec fn bucket_status(rs: Seq<ReplicaEntry>) -> BucketReadiness {
    if has_healthy(rs) {
        if all_shown_healthy(rs) {
            BucketReadiness::Ready
        } else {
            BucketReadiness::Degraded
        }
    } else {
        BucketReadiness::Unavailable
    }
}

/// The readiness of a bucket with the given replicas.
pub fn bucket_readiness(set: &ReplicaSet) -> (r: BucketReadiness)
    ensures
        r == bucket_status(set.replicas@),
{
    let rs = &set.replicas;
    let mut any_healthy = false;
    let mut shown_healthy = true;
    let mut i: usize = 0;
    while i < rs.len()
        invariant
            i <= rs@.len(),
            any_healthy == exists|k: int| 0 <= k < i && replica_healthy(#[trigger] rs@[k]),
            shown_healthy == forall|k: int|
                0 <= k < i && last_of_name(rs@, k) ==> replica_healthy(#[trigger] rs@[k]),
        decreases rs@.len() - i,
    {
        let healthy = rs[i].circuit_state == CircuitState::Closed;
        if healthy {
            any_healthy = true;
        }
        // is a later replica named like this one?
        let mut shadowed = false;
        let mut j: usize = i + 1;
        while j < rs.len()
            invariant
                i < j <= rs@.len(),
                shadowed == exists|l: int| i < l < j && (#[trigger] rs@[l]).name@ == rs@[i as int].name@,
            decreases rs@.len() - j,
        {
            if rs[j].name == rs[i].name {
                shadowed = true;
            }
            j = j + 1;
        }
        assert(shadowed == !last_of_name(rs@, i as int));
        if !shadowed && !healthy {
            shown_healthy = false;
        }
        i = i + 1;
    }
    if any_healthy {
        if shown_healthy {
            BucketReadiness::Ready
        } else {
            BucketReadiness::Degraded
        }
    } else {
        BucketReadiness::Unavailable
    }
}

/// The health of one bucket in a readiness report.
#[derive(Debug, Clone)]
pub struct BucketHealthReport {
    /// Bucket name.
    pub bucket: String,
    /// Readiness of the bucket.
    pub status: BucketReadiness,
    /// Name and health of each replica, in order; `None` when the bucket
    /// has no replica set.
    pub replicas: Option<Vec<(String, bool)>>,
}

/// What `/ready` answers: the status code, whether every bucket can serve,
/// and each bucket's health.
#[derive(Debug, Clone)]
pub struct ReadinessReport {
    /// 200 when every bucket can serve, else 503.
    pub status_code: u16,
    /// Whether every bucket has a healthy replica.
    pub all_healthy: bool,
    /// One entry per configured bucket, in order.
    pub buckets: Vec<BucketHealthReport>,
}

/// The names (as text) and health flags of a list of replicas' health.
pub open spec fn health_pairs(v: Seq<(String, bool)>) -> Seq<(Seq<char>, bool)> {
    v.map_values(|p: (String, bool)| (p.0@, p.1))
}

/// The name and health of each replica.
pub open spec fn replica_health_view(rs: Seq<ReplicaEntry>) -> Seq<(Seq<char>, bool)> {
    rs.map_values(|r: ReplicaEntry| (r.name@, replica_healthy(r)))
}

/// The report entry for a bucket.
pub open spec fn bucket_report_of(
    e: BucketHealthReport,
    b: BucketConfig,
    sets: Seq<(String, ReplicaSet)>,
) -> bool {
    &&& e.bucket@ == b.name@
    &&& match find_set(sets, b.name@) {
        Some(k) => {
            &&& e.status == bucket_status(sets[k].1.replicas@)
            &&& e.replicas matches Some(v) && health_pairs(v@) == replica_health_view(sets[k].1.replicas@)
        },
        None => e.status == BucketReadiness::Unavailable && e.replicas is None,
    }
}

/// Whether a bucket can serve: it has a replica set with a healthy replica.
pub open spec fn bucket_can_serve(b: BucketConfig, sets: Seq<(String, ReplicaSet)>) -> bool {
    match find_set(sets, b.name@) {
        Some(k) => has_healthy(sets[k].1.replicas@),
        None => false,
    }
}

/// The metrics after recording the backend health of each bucket that
/// has a replica set.
pub open spec fn health_recorded(
    m: MetricsView,
    buckets: Seq<BucketConfig>,
    sets: Seq<(String, ReplicaSet)>,
) -> MetricsView
    decreases buckets.len(),
{
    if buckets.len() == 0 {
        m
    } else {
        let m0 = health_recorded(m, buckets.drop_last(), sets);
        let b = buckets.last();
        match find_set(sets, b.name@) {
            Some(k) => MetricsView {
                backend_health: label_insert(
                    m0.backend_health,
                    b.name@,
                    has_healthy(sets[k].1.replicas@),
                ),
                ..m0
            },
            None => m0,
        }
    }
}

/// Name and health of each replica.
fn replica_health_list(set: &ReplicaSet) -> (r: Vec<(String, bool)>)
    ensures
        health_pairs(r@) == replica_health_view(set.replicas@),
{
    let rs = &set.replicas;
    let mut out: Vec<(String, bool)> = Vec::new();
    let mut i: usize = 0;
    while i < rs.len()
        invariant
            i <= rs@.len(),
            out@.len() == i,
            health_pairs(out@) == replica_health_view(
                rs@.take(i as int),
            ),
        decreases rs@.len() - i,
    {
        let name = rs[i].name.clone();
        assert(name@ == rs@[i as int].name@);
        let healthy = rs[i].circuit_state == CircuitState::Closed;
        let ghost before = out@;
        out.push((name, healthy));
        assert(rs@.take(i + 1) =~= rs@.take(i as int).push(rs@[i as int]));
        assert(out@ == before.push((name, healthy)));
        assert forall|k: int| 0 <= k < i + 1 implies #[trigger] health_pairs(out@)[k]
            == replica_health_view(rs@.take(i + 1))[k] by {
            if k < i {
                assert(health_pairs(before)[k] == replica_health_view(rs@.take(i as int))[k]);
            }
        }
        assert(health_pairs(out@) =~= replica_health_view(rs@.take(i + 1)));
        i = i + 1;
    }
    assert(rs@.take(rs@.len() as int) =~= rs@);
    out
}

/// Whether some replica is healthy.
fn any_replica_healthy(set: &ReplicaSet) -> (r: bool)
    ensures
        r == has_healthy(set.replicas@),
{
    let mut i: usize = 0;
    while i < set.replicas.len()
        invariant
            i <= set.replicas@.len(),
            forall|k: int| 0 <= k < i ==> !replica_healthy(#[trigger] set.replicas@[k]),
        decreases set.replicas@.len() - i,
    {
        if set.replicas[i].circuit_state == CircuitState::Closed {
            return true;
        }
        i = i + 1;
    }
    false
}

/// The readiness of every configured bucket: each bucket with a replica
/// set is ready, degraded or unavailable after its replicas' circuit
/// breakers, and its backend health (whether a replica is healthy) is
/// recorded in the metrics; a bucket without one is unavailable. The
/// status code is 200 when every bucket can serve, 503 otherwise.
pub fn assess_readiness(
    buckets: &Vec<BucketConfig>,
    replica_sets: &Vec<(String, ReplicaSet)>,
    metrics: &mut Metrics,
) -> (r: ReadinessReport)
    ensures
        r.buckets@.len() == buckets@.len(),
        forall|i: int|
            0 <= i < buckets@.len() ==> bucket_report_of(
                #[trigger] r.buckets@[i],
                buckets@[i],
                replica_sets@,
            ),
        r.all_healthy == forall|i: int|
            0 <= i < buckets@.len() ==> bucket_can_serve(#[trigger] buckets@[i], replica_sets@),
        r.status_code == (if r.all_healthy { 200u16 } else { 503u16 }),
        final(metrics)@ == health_recorded(old(metrics)@, buckets@, replica_sets@),
{
    let mut reports: Vec<BucketHealthReport> = Vec::new();
    let mut all_healthy = true;
    let mut i: usize = 0;
    while i < buckets.len()
        invariant
            i <= buckets@.len(),
            reports@.len() == i,
            forall|k: int|
                0 <= k < i ==> bucket_report_of(#[trigger] reports@[k], buckets@[k], replica_sets@),
            all_healthy == forall|k: int|
                0 <= k < i ==> bucket_can_serve(#[trigger] buckets@[k], replica_sets@),
            metrics@ == health_recorded(old(metrics)@, buckets@.take(i as int), replica_sets@),
        decreases buckets@.len() - i,
    {
        let b = &buckets[i];
        assert(buckets@.take(i + 1).drop_last() =~= buckets@.take(i as int));
        match lookup_set(replica_sets, b.name.as_str()) {
            Some(set) => {
                let healthy = any_replica_healthy(set);
                let status = bucket_readiness(set);
                let list = replica_health_list(set);
                metrics.set_backend_health(b.name.as_str(), healthy);
                if !healthy {
                    all_healthy = false;
                }
                reports.push(
                    BucketHealthReport { bucket: b.name.clone(), status, replicas: Some(list) },
                );
            },
            None => {
                all_healthy = false;
                reports.push(
                    BucketHealthReport {
                        bucket: b.name.clone(),
                        status: BucketReadiness::Unavailable,
                        replicas: None,
                    },
                );
            },
        }
        i = i + 1;
    }
    assert(buckets@.take(buckets@.len() as int) =~= buckets@);
    ReadinessReport {
        status_code: if all_healthy { 200 } else { 503 },
        all_healthy,
        buckets: reports,
    }
}

} // verus!
