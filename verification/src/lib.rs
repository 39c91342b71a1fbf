//! Pathogen: a mutation-testing orchestrator library.
//!
//! Given a source tree and a catalog of precomputed mutants, the library
//! models the core of a mutation-testing run: resolving mutants against
//! their originals, isolating a scratch workspace, driving a bounded pool
//! of test workers, classifying each outcome, and aggregating a report.

pub mod builder;
pub mod cache;
pub mod catalog;
pub mod parser;
pub mod pool;
pub mod report;
pub mod text;
pub mod types;
pub mod worker;
pub mod workspace;
