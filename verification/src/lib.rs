//! Orchestration core for running read queries and subscriptions against a
//! replicated, eventually-consistent indexed store derived from a blockchain.
//!
//! The library holds the decision logic: the consistency guard that detects
//! reorg-induced staleness, the partitioning and merging of a query by block
//! constraint, the admission-control gate, and result-size metrics. The
//! store, the field-resolution engine and the subscription engine are
//! external collaborators; callers drive the orchestration state machine and
//! hand their answers back in as plain values.

pub mod deployment;
pub mod errors;
pub mod guard;
pub mod metrics;
pub mod admission;
pub mod config;
pub mod query;
pub mod results;
pub mod orchestration;
pub mod runner;
