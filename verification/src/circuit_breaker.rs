//! What the proxy reads of a backend's circuit breaker: its state and
//! its counters.

use vstd::prelude::*;

verus! {

/// State of a circuit breaker.
#[derive(Debug, Clone, Copy, PartialEq, Eq, Structural)]
pub enum CircuitState {
    /// Requests flow normally.
    Closed,
    /// Requests are rejected after too many failures.
    Open,
    /// A trial request is let through to probe the backend.
    HalfOpen,
}

/// The gauge value of a state: 0 closed, 1 open, 2 half-open.
pub open spec fn state_number(s: CircuitState) -> u8 {
    match s {
        CircuitState::Closed => 0,
        CircuitState::Open => 1,
        CircuitState::HalfOpen => 2,
    }
}

impl CircuitState {
    /// The gauge value of the state: 0 closed, 1 open, 2 half-open.
    pub fn as_gauge(&self) -> (r: u8)
        ensures
            r == state_number(*self),
    {
        match self {
            CircuitState::Closed => 0,
            CircuitState::Open => 1,
            CircuitState::HalfOpen => 2,
        }
    }
}

/// The observable state of one circuit breaker at one moment.
#[derive(Debug, Clone, Copy, PartialEq, Eq, Structural)]
pub struct CircuitBreakerSnapshot {
    /// Current state.
    pub state: CircuitState,
    /// Consecutive failures.
    pub failure_count: u64,
    /// Successes in the half-open state.
    pub success_count: u64,
}

} // verus!
