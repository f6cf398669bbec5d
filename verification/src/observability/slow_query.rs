//! Slow query detection: which finished requests are reported, at which
//! level and with which timing breakdown, and a timer for the phases of a
//! request.

use vstd::prelude::*;
use std::time::Instant;
use crate::observability::config::SlowQueryConfig;
use crate::time::{elapsed_nanos, instant_now};
use crate::observability::tracing::RequestTiming;
use crate::text::{decimal, fold_of, fold_seq, chars_eq, chars_of, push_str, to_string, u64_to_decimal};

verus! {

/// Whole milliseconds since `start`, read from the clock (truncated to
/// 64 bits).
fn millis_since(start: &Instant) -> (r: u64) {
    let nanos = elapsed_nanos(start);
    (nanos / 1_000_000) as u64
}

/// Level of a slow query log line.
#[derive(Debug, Clone, Copy, PartialEq, Eq, Structural)]
pub enum SlowQueryLevel {
    Error,
    Warn,
    Info,
    Debug,
}

/// The level a configured name selects, in any letter case; anything
/// unknown selects warn.
pub open spec fn level_named(name: Seq<char>) -> SlowQueryLevel {
    let n = fold_seq(name);
    if n == "error"@ {
        SlowQueryLevel::Error
    } else if n == "info"@ {
        SlowQueryLevel::Info
    } else if n == "debug"@ {
        SlowQueryLevel::Debug
    } else {
        SlowQueryLevel::Warn
    }
}

/// The level a configured name selects.
pub fn parse_slow_query_level(name: &str) -> (r: SlowQueryLevel)
    ensures
        r == level_named(name@),
{
    let n = fold_of(name);
    if chars_eq(n.as_slice(), chars_of("error").as_slice()) {
        SlowQueryLevel::Error
    } else if chars_eq(n.as_slice(), chars_of("info").as_slice()) {
        SlowQueryLevel::Info
    } else if chars_eq(n.as_slice(), chars_of("debug").as_slice()) {
        SlowQueryLevel::Debug
    } else {
        SlowQueryLevel::Warn
    }
}

/// What is logged about one slow request.
#[derive(Debug, Clone)]
pub struct SlowQueryRecord {
    /// Log level.
    pub level: SlowQueryLevel,
    /// Correlation id of the request.
    pub correlation_id: String,
    /// HTTP method.
    pub method: String,
    /// Request path.
    pub path: String,
    /// Total duration in milliseconds.
    pub total_ms: u64,
    /// Configured threshold in milliseconds.
    pub threshold_ms: u64,
    /// Timing breakdown (empty when not configured or nothing measured).
    pub breakdown: String,
}

/// One part of the breakdown, `name=Nms`, when the phase was measured.
pub open spec fn breakdown_part(name: Seq<char>, ms: Option<u64>) -> Seq<Seq<char>> {
    match ms {
        Some(v) => seq![name + "="@ + decimal(v as nat) + "ms"@],
        None => Seq::empty(),
    }
}

/// The parts joined with `, `.
pub open spec fn join_comma(parts: Seq<Seq<char>>) -> Seq<char>
    decreases parts.len(),
{
    if parts.len() == 0 {
        Seq::empty()
    } else if parts.len() == 1 {
        parts[0]
    } else {
        join_comma(parts.drop_last()) + ", "@ + parts.last()
    }
}

/// The timing breakdown: the measured phases among auth, cache, s3 and
/// other, in that order, as `name=Nms` joined with `, `.
pub open spec fn breakdown_text(t: RequestTiming) -> Seq<char> {
    join_comma(
        breakdown_part("auth"@, t.auth_ms) + breakdown_part("cache"@, t.cache_ms) + breakdown_part(
            "s3"@,
            t.s3_ms,
        ) + breakdown_part("other"@, t.other_ms),
    )
}

/// Appends the breakdown part of one phase, after `, ` unless it is the
/// first part.
fn push_part(out: &mut String, Ghost(parts): Ghost<Seq<Seq<char>>>, any: bool, name: &str, ms: Option<u64>) -> (r: bool)
    requires
        old(out)@ == join_comma(parts),
        any == (parts.len() > 0),
    ensures
        final(out)@ == join_comma(parts + breakdown_part(name@, ms)),
        r == ((parts + breakdown_part(name@, ms)).len() > 0),
{
    match ms {
        Some(v) => {
            let ghost piece = name@ + "="@ + decimal(v as nat) + "ms"@;
            if any {
                push_str(out, ", ");
            }
            push_str(out, name);
            push_str(out, "=");
            let d = u64_to_decimal(v);
            push_str(out, d.as_str());
            push_str(out, "ms");
            proof {
                let all = parts + breakdown_part(name@, ms);
                assert(all.drop_last() =~= parts);
                assert(all.last() == piece);
                if parts.len() == 0 {
                    assert(out@ =~= piece);
                } else {
                    assert(out@ =~= join_comma(parts) + ", "@ + piece);
                }
            }
            true
        },
        None => {
            assert(parts + breakdown_part(name@, ms) =~= parts);
            any
        },
    }
}

/// Reports requests that take at least a configured time.
#[derive(Debug, Clone)]
pub struct SlowQueryLogger {
    config: SlowQueryConfig,
}

impl SlowQueryLogger {
    /// The configuration of the logger.
    pub closed spec fn settings(self) -> SlowQueryConfig {
        self.config
    }

    /// A logger with the given configuration.
    pub fn new(config: SlowQueryConfig) -> (r: Self)
        ensures
            r.settings() == config,
    {
        SlowQueryLogger { config }
    }

    /// Whether slow queries are logged.
    pub fn is_enabled(&self) -> (r: bool)
        ensures
            r == self.settings().enabled,
    {
        self.config.enabled
    }

    /// The threshold in milliseconds.
    pub fn threshold_ms(&self) -> (r: u64)
        ensures
            r == self.settings().threshold_ms,
    {
        self.config.threshold_ms
    }

    /// The timing breakdown of a request.
    pub fn format_breakdown(&self, timing: &RequestTiming) -> (r: String)
        ensures
            r@ == breakdown_text(*timing),
    {
        let mut out = String::new();
        let ghost p0 = Seq::<Seq<char>>::empty();
        let a1 = push_part(&mut out, Ghost(p0), false, "auth", timing.auth_ms);
        let ghost p1 = p0 + breakdown_part("auth"@, timing.auth_ms);
        let a2 = push_part(&mut out, Ghost(p1), a1, "cache", timing.cache_ms);
        let ghost p2 = p1 + breakdown_part("cache"@, timing.cache_ms);
        let a3 = push_part(&mut out, Ghost(p2), a2, "s3", timing.s3_ms);
        let ghost p3 = p2 + breakdown_part("s3"@, timing.s3_ms);
        let _ = push_part(&mut out, Ghost(p3), a3, "other", timing.other_ms);
        assert(p3 + breakdown_part("other"@, timing.other_ms) =~= breakdown_part(
            "auth"@,
            timing.auth_ms,
        ) + breakdown_part("cache"@, timing.cache_ms) + breakdown_part("s3"@, timing.s3_ms)
            + breakdown_part("other"@, timing.other_ms));
        out
    }

    /// The record to log for a finished request: `None` when slow query
    /// logging is disabled or the request did not exceed the threshold;
    /// otherwise the request at the configured level, with the breakdown
    /// when configured.
    pub fn log_if_slow(
        &self,
        timing: &RequestTiming,
        method: &str,
        path: &str,
        correlation_id: &str,
    ) -> (r: Option<SlowQueryRecord>)
        ensures
            !self.settings().enabled || timing.total_ms <= self.settings().threshold_ms ==> r is None,
            self.settings().enabled && timing.total_ms > self.settings().threshold_ms ==> (r matches Some(
                rec,
            ) && rec.level == level_named(self.settings().log_level@) && rec.correlation_id@
                == correlation_id@ && rec.method@ == method@ && rec.path@ == path@ && rec.total_ms
                == timing.total_ms && rec.threshold_ms == self.settings().threshold_ms
                && rec.breakdown@ == (if self.settings().include_breakdown {
                breakdown_text(*timing)
            } else {
                Seq::<char>::empty()
            })),
    {
        if !self.config.enabled {
            return None;
        }
        if timing.total_ms <= self.config.threshold_ms {
            return None;
        }
        let breakdown = if self.config.include_breakdown {
            self.format_breakdown(timing)
        } else {
            String::new()
        };
        Some(
            SlowQueryRecord {
                level: parse_slow_query_level(self.config.log_level.as_str()),
                correlation_id: to_string(correlation_id),
                method: to_string(method),
                path: to_string(path),
                total_ms: timing.total_ms,
                threshold_ms: self.config.threshold_ms,
                breakdown,
            },
        )
    }
}

impl Default for SlowQueryLogger {
    /// A logger with the default configuration (disabled).
    fn default() -> (r: Self)
        ensures
            !r.settings().enabled,
            r.settings().threshold_ms == 1000,
            r.settings().include_breakdown,
            r.settings().log_level@ == "warn"@,
    {
        SlowQueryLogger::new(SlowQueryConfig::default())
    }
}

/// The timing of a request from its total and its measured phases: the
/// time not attributed to a phase is the total less the phases (at least
/// 0, and the phases' sum capped at `u64::MAX`), reported only when
/// positive.
pub open spec fn timing_of(total: u64, auth: Option<u64>, cache: Option<u64>, s3: Option<u64>) -> RequestTiming {
    let a: int = match auth { Some(v) => v as int, None => 0 };
    let c: int = match cache { Some(v) => v as int, None => 0 };
    let s: int = match s3 { Some(v) => v as int, None => 0 };
    let known: int = if a + c + s > u64::MAX { u64::MAX as int } else { a + c + s };
    let other: int = if total >= known { total - known } else { 0 };
    RequestTiming {
        total_ms: total,
        auth_ms: auth,
        cache_ms: cache,
        s3_ms: s3,
        other_ms: if other > 0 { Some(other as u64) } else { None },
    }
}

/// The timing of a request from its total and its measured phases.
pub fn timing_from_phases(total: u64, auth: Option<u64>, cache: Option<u64>, s3: Option<u64>) -> (r:
    RequestTiming)
    ensures
        r == timing_of(total, auth, cache, s3),
{
    let a = match auth { Some(v) => v, None => 0 };
    let c = match cache { Some(v) => v, None => 0 };
    let s = match s3 { Some(v) => v, None => 0 };
    let known = a.saturating_add(c).saturating_add(s);
    let other = total.saturating_sub(known);
    RequestTiming {
        total_ms: total,
        auth_ms: auth,
        cache_ms: cache,
        s3_ms: s3,
        other_ms: if other > 0 { Some(other) } else { None },
    }
}

/// Measures the phases of one request.
pub struct PhaseTimer {
    start: Instant,
    auth_duration: Option<u64>,
    cache_duration: Option<u64>,
    s3_duration: Option<u64>,
    phase_start: Option<Instant>,
}

impl PhaseTimer {
    /// The measured authentication time.
    pub closed spec fn auth_measured(self) -> Option<u64> {
        self.auth_duration
    }

    /// The measured cache time.
    pub closed spec fn cache_measured(self) -> Option<u64> {
        self.cache_duration
    }

    /// The measured S3 time.
    pub closed spec fn s3_measured(self) -> Option<u64> {
        self.s3_duration
    }

    /// Whether a phase is being timed.
    pub closed spec fn phase_running(self) -> bool {
        self.phase_start is Some
    }

    /// A timer started now, with no phase measured.
    pub fn start() -> (r: Self)
        ensures
            r.auth_measured() is None,
            r.cache_measured() is None,
            r.s3_measured() is None,
            !r.phase_running(),
    {
        PhaseTimer {
            start: instant_now(),
            auth_duration: None,
            cache_duration: None,
            s3_duration: None,
            phase_start: None,
        }
    }

    /// Starts timing the authentication phase.
    pub fn start_auth(&mut self)
        ensures
            final(self).phase_running(),
            final(self).auth_measured() == old(self).auth_measured(),
            final(self).cache_measured() == old(self).cache_measured(),
            final(self).s3_measured() == old(self).s3_measured(),
    {
        self.phase_start = Some(instant_now());
    }

    /// Ends the authentication phase: its time is recorded when a phase
    /// was being timed.
    pub fn end_auth(&mut self)
        ensures
            !final(self).phase_running(),
            old(self).phase_running() ==> final(self).auth_measured() is Some,
            !old(self).phase_running() ==> final(self).auth_measured() == old(self).auth_measured(),
            final(self).cache_measured() == old(self).cache_measured(),
            final(self).s3_measured() == old(self).s3_measured(),
    {
        if let Some(start) = self.phase_start.take() {
            self.auth_duration = Some(millis_since(&start));
        }
    }

    /// Starts timing the cache phase.
    pub fn start_cache(&mut self)
        ensures
            final(self).phase_running(),
            final(self).auth_measured() == old(self).auth_measured(),
            final(self).cache_measured() == old(self).cache_measured(),
            final(self).s3_measured() == old(self).s3_measured(),
    {
        self.phase_start = Some(instant_now());
    }

    /// Ends the cache phase: its time is recorded when a phase was being
    /// timed.
    pub fn end_cache(&mut self)
        ensures
            !final(self).phase_running(),
            old(self).phase_running() ==> final(self).cache_measured() is Some,
            !old(self).phase_running() ==> final(self).cache_measured() == old(self).cache_measured(),
            final(self).auth_measured() == old(self).auth_measured(),
            final(self).s3_measured() == old(self).s3_measured(),
    {
        if let Some(start) = self.phase_start.take() {
            self.cache_duration = Some(millis_since(&start));
        }
    }

    /// Starts timing the S3 phase.
    pub fn start_s3(&mut self)
        ensures
            final(self).phase_running(),
            final(self).auth_measured() == old(self).auth_measured(),
            final(self).cache_measured() == old(self).cache_measured(),
            final(self).s3_measured() == old(self).s3_measured(),
    {
        self.phase_start = Some(instant_now());
    }

    /// Ends the S3 phase: its time is recorded when a phase was being
    /// timed.
    pub fn end_s3(&mut self)
        ensures
            !final(self).phase_running(),
            old(self).phase_running() ==> final(self).s3_measured() is Some,
            !old(self).phase_running() ==> final(self).s3_measured() == old(self).s3_measured(),
            final(self).auth_measured() == old(self).auth_measured(),
            final(self).cache_measured() == old(self).cache_measured(),
    {
        if let Some(start) = self.phase_start.take() {
            self.s3_duration = Some(millis_since(&start));
        }
    }

    /// Milliseconds since the timer started (read from the clock).
    pub fn total_ms(&self) -> (r: u64) {
        millis_since(&self.start)
    }

    /// The timing so far: the total read from the clock, the measured
    /// phases, and the rest.
    pub fn to_timing(&self) -> (r: RequestTiming)
        ensures
            r == timing_of(r.total_ms, self.auth_measured(), self.cache_measured(), self.s3_measured()),
    {
        let total = self.total_ms();
        timing_from_phases(total, self.auth_duration, self.cache_duration, self.s3_duration)
    }
}

} // verus!
