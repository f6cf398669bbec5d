# yatagarasu

The verified core of a read-only S3 proxy, written in Verus. The decisions
the proxy takes on a request are functions on plain values with contracts
that Verus proves: the read-only method gate, the security limits and
attack patterns, the order of the rate limit checks and which refusal
decides, the circuit breaker gate, replica selection and S3 endpoints,
cache keys and `Cache-Control` handling, conditional requests, metrics and
their Prometheus text, slow-query and request logging decisions, and the
JSON error bodies. What no contract decides is what depends on the clock
or on outside state: whether a `governor` limiter admits one more request
at this instant, and the time readings themselves.

## Layout

- `src/` — the library, verified by Verus.
  - `proxy/` — the request pipeline. `filter.rs` is the request filter as a
    state machine: the caller runs the stage it names (resource check,
    security, special endpoints, routing, rate limits, circuit breaker,
    authentication, authorization, cache lookup), reports what that stage
    found, and the filter counts the report in the metrics and names the
    next step; the first stage that ends the request answers it and no
    later stage runs. Around it: the method gate and the 503 resource
    refusals (`mod.rs`), security checks, stage results and the pipeline
    decision (`request_filter.rs`), routing and authorization gates,
    upstream selection, response and cache handling, special endpoints,
    the completion step of a request (`logging.rs`) and start-up of shared
    state: rate limit manager, retry policies, OPA and OpenFGA clients
    (`init.rs`).
  - `rate_limit.rs` — global, per-IP, per-user and per-bucket token buckets
    (`governor` limiters), with bounded, evictable per-key tables.
  - `metrics.rs`, `prometheus.rs`, `exposition.rs`, `labels.rs` — counters,
    latency samples and their exposition format: the export is a fixed
    list of metric blocks, one per metric, each with one HELP and one TYPE
    line.
  - `observability/` — request logging filters and redaction, slow-query
    detection, tracing configuration.
  - `cache.rs`, `security.rs`, `retry.rs`, `replica_set.rs`,
    `circuit_breaker.rs`, `config.rs`, `pipeline/`, `opa.rs`, `openfga.rs` —
    the data the pipeline works on.
  - `text.rs`, `json.rs`, `time.rs` — verified text helpers, JSON string
    quoting through `serde_json` (with its escaping stated), clock and
    duration wrappers.
- `tests/` — tests that run the compiled library with the real outside
  crates.
- `app/` — what cannot be verified: the process-wide metrics instance,
  floating-point histograms, tracing spans and log output, serde copies of
  configuration types, the reload signal flag, health and readiness JSON
  bodies and the rate limiter cleanup thread.

Not part of this project: the HTTP server integration (the proxy trait
implementation that drives the filter), JWT authentication, S3 request
signing and image optimisation. They live in modules of their own that
this library does not contain; the filter takes their results as stage
reports.

Outside calls stand behind small trusted wrappers whose contracts say what
the outside crate's source or documentation promises; results that depend
on the clock or on randomness carry no claim beyond what holds of every
outcome.
