//! Automorphism-group summaries of graphs computed by the nauty and Traces
//! engines: how each engine is configured, how its status is classified, and
//! how its statistics record becomes one uniform result.

pub mod autom;
pub mod error;
pub mod laws;
pub mod options;
pub mod stats;
