//! Trusted boundary to the external planning engine and document compiler.
//!
//! Everything the analyzer needs from `apollo_federation` and
//! `apollo_compiler` passes through the declarations and wrappers in this
//! module; the rest of the crate is verified against their contracts.

use vstd::prelude::*;

verus! {

use std::io::Write;

use apollo_compiler::ExecutableDocument;
use apollo_compiler::validation::Valid;
use apollo_federation::Supergraph;
use apollo_federation::error::FederationError;
use apollo_federation::query_plan::QueryPlan;
use apollo_federation::query_plan::query_planner::QueryPlanOptions;
use apollo_federation::query_plan::query_planner::QueryPlanIncrementalDeliveryConfig;
use apollo_federation::query_plan::query_planner::QueryPlanner;
use apollo_federation::query_plan::query_planner::QueryPlannerConfig;
use apollo_federation::query_plan::query_planner::QueryPlannerDebugConfig;

use crate::combinations::distinct_labels;

#[verifier::external_type_specification]
#[verifier::external_body]
pub struct ExSupergraph(Supergraph);

#[verifier::external_type_specification]
#[verifier::external_body]
pub struct ExQueryPlanner(QueryPlanner);

#[verifier::external_type_specification]
#[verifier::external_body]
pub struct ExQueryPlannerConfig(QueryPlannerConfig);

#[verifier::external_type_specification]
#[verifier::external_body]
pub struct ExQueryPlan(QueryPlan);

#[verifier::external_type_specification]
#[verifier::external_body]
pub struct ExExecutableDocument(ExecutableDocument);

#[verifier::external_type_specification]
#[verifier::external_body]
#[verifier::reject_recursive_types(T)]
pub struct ExValid<T>(Valid<T>);

/// Relies on `Supergraph::new_with_router_specs`: compiles and validates a
/// supergraph schema document, with the specs the Router supports.
#[verifier::external_body]
pub(crate) fn new_supergraph(schema_str: &str) -> (r: Result<Supergraph, String>) {
    Supergraph::new_with_router_specs(schema_str).map_err(|e| e.to_string())
}

/// Relies on apollo_federation's `QueryPlannerConfig` struct: builds the
/// engine configuration from plain values. The evaluated-plans bound must not
/// be zero, since the engine holds it as a non-zero integer.
#[verifier::external_body]
pub(crate) fn make_planner_config(
    generate_query_fragments: bool,
    enable_defer: bool,
    type_conditioned_fetching: bool,
    max_evaluated_plans: u32,
    paths_limit: Option<u32>,
) -> QueryPlannerConfig
    requires
        max_evaluated_plans >= 1,
{
    QueryPlannerConfig {
        subgraph_graphql_validation: false,
        generate_query_fragments,
        incremental_delivery: QueryPlanIncrementalDeliveryConfig { enable_defer },
        type_conditioned_fetching,
        debug: QueryPlannerDebugConfig {
            max_evaluated_plans: std::num::NonZeroU32::new(max_evaluated_plans).unwrap_or(
                std::num::NonZeroU32::MIN,
            ),
            paths_limit,
        },
    }
}

/// Relies on `QueryPlannerConfig::default` of apollo_federation.
#[verifier::external_body]
pub(crate) fn default_planner_config() -> QueryPlannerConfig {
    QueryPlannerConfig::default()
}

/// Relies on `QueryPlanner::new`: instantiates the planning engine for a
/// compiled supergraph.
#[verifier::external_body]
pub(crate) fn new_query_planner(
    supergraph: &Supergraph,
    config: QueryPlannerConfig,
) -> (r: Result<QueryPlanner, String>) {
    QueryPlanner::new(supergraph, config).map_err(|e| e.to_string())
}

/// Relies on `QueryPlanner::override_condition_labels`: the labels come from
/// an `IndexSet` keyed by string content, so no label occurs twice; each is
/// converted to an owned `String` in the set's iteration order.
#[verifier::external_body]
pub(crate) fn planner_override_labels(planner: &QueryPlanner) -> (labels: Vec<String>)
    ensures
        distinct_labels(labels.deep_view()),
{
    planner.override_condition_labels().iter().map(|s| s.to_string()).collect()
}

/// Relies on `ExecutableDocument::parse_and_validate`, reaching the API schema
/// through `QueryPlanner::api_schema`: parses and validates a query document;
/// the path serves only to label diagnostics.
#[verifier::external_body]
pub(crate) fn parse_document(
    planner: &QueryPlanner,
    query_str: &str,
    query_path: &str,
) -> (r: Result<Valid<ExecutableDocument>, String>) {
    ExecutableDocument::parse_and_validate(planner.api_schema().schema(), query_str, query_path)
        .map_err(|e| FederationError::from(e).to_string())
}

/// Relies on `QueryPlanner::build_query_plan`: builds one query plan with
/// exactly the given override conditions active; every other planning option
/// keeps its default.
#[verifier::external_body]
pub(crate) fn build_plan(
    planner: &QueryPlanner,
    document: &Valid<ExecutableDocument>,
    override_conditions: &Vec<String>,
) -> (r: Result<QueryPlan, String>) {
    let options = QueryPlanOptions { override_conditions: override_conditions.clone(), ..Default::default() };
    planner.build_query_plan(document, None, options).map_err(|e| e.to_string())
}

/// Relies on `QueryPlan`'s `Display` impl: renders the plan in its
/// human-readable textual form.
#[verifier::external_body]
pub(crate) fn render_plan(plan: &QueryPlan) -> String {
    format!("{plan}")
}

/// Relies on `std::io::Stdout::write_fmt` (through `writeln`): prints one line
/// of progress to standard output.
#[verifier::external_body]
pub(crate) fn emit_line(line: &str) {
    let _ = writeln!(std::io::stdout(), "{line}");
}

/// Relies on `std::io::Stdout::write_fmt` (through `writeln`): announces which
/// combination is about to be planned, between separator lines.
#[verifier::external_body]
pub(crate) fn emit_progress(index: usize, override_conditions: &Vec<String>) {
    let rule = "-----------------------------------------------------------------------";
    let _ = writeln!(std::io::stdout(), "{rule}");
    let _ = writeln!(std::io::stdout(), "Override Combination #{index}: {override_conditions:?}");
    let _ = writeln!(std::io::stdout(), "{rule}");
}

} // verus!
