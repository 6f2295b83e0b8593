//! Synchronization engine for a catalog of named time-series indicators.
//!
//! The crate holds the decisions of the engine and proves them:
//!
//! - [`registry`] and [`catalog`]: the indicators, looked up by slug;
//! - [`indicators`]: the computed indicators, their inputs and their joins;
//! - [`timeseries`]: observations, the upsert of a series, and alignment;
//! - [`staleness`]: which indicators are due, and how intervals are read;
//! - [`rate_limiter`]: the wait that each provider asks for;
//! - [`orchestrator`]: resolving one indicator, dependencies first;
//! - [`scheduler`] and [`batch`]: the periodic run and the manual one;
//! - [`seeder`]: what the store is to hold of the catalog;
//! - [`text`]: the few operations on texts that the rules above need.
//!
//! The three protocols (resolving, the batch, the periodic run) are
//! functions from a state and the outcome of the last request to the next
//! state and the next request. The caller carries out each request (a
//! fetch, a store access, a pause) and reports its outcome; the crate does no
//! input or output of its own.

pub mod batch;
pub mod catalog;
pub mod indicators;
pub mod orchestrator;
pub mod rate_limiter;
pub mod registry;
pub mod scheduler;
pub mod seeder;
pub mod staleness;
pub mod text;
pub mod timeseries;
