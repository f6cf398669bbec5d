//! Replicas of a bucket, in priority order.

use vstd::prelude::*;
use crate::config::S3Config;
use crate::circuit_breaker::CircuitState;

verus! {

/// One replica of a bucket.
#[derive(Debug, Clone)]
pub struct ReplicaEntry {
    /// Replica name.
    pub name: String,
    /// Priority (lower serves first).
    pub priority: u32,
    /// Backend settings of the replica.
    pub config: S3Config,
    /// Whether the replica's circuit breaker currently lets requests
    /// through.
    pub accepts_requests: bool,
    /// State of the replica's circuit breaker.
    pub circuit_state: CircuitState,
}

/// The replicas of a bucket, in the order in which they are tried.
#[derive(Debug, Clone)]
pub struct ReplicaSet {
    /// Replicas in priority order.
    pub replicas: Vec<ReplicaEntry>,
}

} // verus!
