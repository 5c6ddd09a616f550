//! The reconciliation engine: what is looked up and created for each URL
//! source, in which order, and what a run reports.

pub mod driver;
pub mod laws;
pub mod machine;
pub mod model;
pub mod outcome;
pub mod plan;
