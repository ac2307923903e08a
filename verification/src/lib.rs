//! A verified ingestion-and-aggregation pipeline for anonymous usage
//! telemetry: submissions from many independently operated installations
//! are filtered, rate limited, resolved against the tenant registry, run
//! through the declarative field parsers, and folded into time-bucketed
//! aggregate counters as one atomic batch of store commands.
//!
//! The library is pure: every store or network round trip is modeled as an
//! action that the per-request session machine asks its driver to perform.

pub mod chart_updater;
pub mod charts;
pub mod data_submission;
pub mod date_util;
pub mod json;
pub mod legacy_data_submission;
pub mod parser;
pub mod ratelimits;
pub mod service;
pub mod software;
pub mod strutil;
pub mod submit_data_schema;
