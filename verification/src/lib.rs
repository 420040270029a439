//! Exercises a federated query-planning engine across every combination of a
//! schema's override-condition labels: discovers the labels, enumerates all
//! their subsets in a fixed order, validates user-supplied subsets, and
//! collects one query plan per combination.

pub mod combinations;
pub mod config;
pub mod error;
pub mod planner;
pub mod plans;
pub mod validate;

pub use config::QueryPlannerArgs;
pub use error::AnalyzerError;
pub use plans::QueryPlanConfig;
pub use plans::QueryPlanResult;
pub use plans::build_all_plans;
pub use plans::build_one_plan;
pub use plans::get_override_labels;
