//! Observability settings and decisions: request logging and slow query
//! configuration, tracing exporter choice, request timings and the slow
//! query log record.

pub mod config;
pub mod tracing;
pub mod slow_query;
pub mod request_logging;
