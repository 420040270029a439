//! Batch planning across override-condition combinations.
//!
//! The orchestrator compiles the schema, instantiates the planning engine,
//! parses the query document, then drives one engine call per combination —
//! either every enumerated combination, or the single combination a caller
//! picked — and packages each outcome into a uniform record.

use vstd::prelude::*;

verus! {

use apollo_compiler::ExecutableDocument;
use apollo_compiler::validation::Valid;
use apollo_federation::query_plan::QueryPlan;
use apollo_federation::query_plan::query_planner::QueryPlanner;

use vstd::arithmetic::power2::pow2;

use crate::combinations::all_combinations;
use crate::combinations::combination_for;
use crate::combinations::distinct_labels;
use crate::combinations::generate_all_possible_override_conditions;
use crate::combinations::try_pow2;
use crate::config::QueryPlannerArgs;
use crate::error::AnalyzerError;
use crate::planner::build_plan;
use crate::planner::default_planner_config;
use crate::planner::emit_line;
use crate::planner::emit_progress;
use crate::planner::make_planner_config;
use crate::planner::new_query_planner;
use crate::planner::new_supergraph;
use crate::planner::parse_document;
use crate::planner::planner_override_labels;
use crate::planner::render_plan;
use crate::validate::all_labels_known;
use crate::validate::check_override_conditions;
use crate::validate::first_duplicate_at;
use crate::validate::first_unknown_at;

/// The configuration affecting the generation of one query plan.
#[derive(Debug, PartialEq, Eq)]
pub struct QueryPlanConfig {
    /// The override conditions that were active for this plan.
    pub override_conditions: Vec<String>,
}

/// The outcome of one engine invocation.
pub struct QueryPlanResult {
    /// The configuration affecting the generation of this query plan.
    pub query_plan_config: QueryPlanConfig,
    /// The human-readable text representation of the generated query plan.
    pub query_plan_display: String,
    /// The engine's structured representation of the generated query plan,
    /// passed through unmodified.
    pub experimental_query_plan_serialized: QueryPlan,
}

/// An owned copy of a label list, kept equal element for element.
fn clone_labels(labels: &Vec<String>) -> (r: Vec<String>)
    ensures
        r.deep_view() == labels.deep_view(),
{
    let n = labels.len();
    let mut r: Vec<String> = Vec::new();
    for i in 0..n
        invariant
            n == labels.len(),
            r.deep_view() == labels.deep_view().take(i as int),
    {
        proof {
            assert(labels.deep_view().take(i as int).len() == i as int);
        }
        r.push(labels[i].clone());
        assert(r.deep_view() =~~= labels.deep_view().take(i + 1));
    }
    assert(r.deep_view() =~~= labels.deep_view());
    r
}

/// Lists the override-condition labels the schema defines, in the engine's
/// discovery order; no label occurs twice.
pub fn get_override_labels(schema_str: &str) -> (r: Result<Vec<String>, AnalyzerError>)
    ensures
        r matches Ok(labels) ==> distinct_labels(labels.deep_view()),
        r matches Err(e) ==> e matches AnalyzerError::Schema { .. } || e
            matches AnalyzerError::Engine { .. },
{
    let supergraph = match new_supergraph(schema_str) {
        Ok(s) => s,
        Err(message) => {
            return Err(AnalyzerError::Schema { message });
        },
    };
    let planner = match new_query_planner(&supergraph, default_planner_config()) {
        Ok(p) => p,
        Err(message) => {
            return Err(AnalyzerError::Engine { message });
        },
    };
    Ok(planner_override_labels(&planner))
}

/// Compiles the schema and instantiates the planning engine with the given
/// arguments, normalized as the engine demands.
fn instantiate_planner(schema_str: &str, config: &QueryPlannerArgs) -> (r: Result<
    QueryPlanner,
    AnalyzerError,
>)
    ensures
        r matches Err(e) ==> e matches AnalyzerError::Schema { .. } || e
            matches AnalyzerError::Engine { .. },
{
    let supergraph = match new_supergraph(schema_str) {
        Ok(s) => s,
        Err(message) => {
            return Err(AnalyzerError::Schema { message });
        },
    };
    let planner_config = make_planner_config(
        !config.disable_generate_query_fragments,
        !config.disable_defer_support,
        config.experimental_type_conditioned_fetching,
        config.max_evaluated_plans(),
        config.paths_limit(),
    );
    match new_query_planner(&supergraph, planner_config) {
        Ok(p) => Ok(p),
        Err(message) => Err(AnalyzerError::Engine { message }),
    }
}

/// One engine call, packaged: builds the plan for `override_conditions` and
/// assembles the uniform record; a failure names the combination attempted.
fn plan_one_combination(
    planner: &QueryPlanner,
    query_doc: &Valid<ExecutableDocument>,
    override_conditions: Vec<String>,
    verbose: bool,
) -> (r: Result<QueryPlanResult, AnalyzerError>)
    ensures
        r matches Ok(result) ==> result.query_plan_config.override_conditions.deep_view()
            == override_conditions.deep_view(),
        r matches Err(e) ==> e matches AnalyzerError::PlanBuild {
            override_conditions: failed,
            message,
        } && failed.deep_view() == override_conditions.deep_view(),
{
    let plan = match build_plan(planner, query_doc, &override_conditions) {
        Ok(p) => p,
        Err(message) => {
            return Err(AnalyzerError::PlanBuild { override_conditions, message });
        },
    };
    let query_plan_display = render_plan(&plan);
    if verbose {
        emit_line(query_plan_display.as_str());
        emit_line("");
    }
    Ok(
        QueryPlanResult {
            query_plan_config: QueryPlanConfig { override_conditions },
            query_plan_display,
            experimental_query_plan_serialized: plan,
        },
    )
}

/// Enumerates every combination of the schema's override labels and builds one
/// query plan per combination, in enumeration order. The batch is
/// all-or-nothing: success carries exactly one record per combination of the
/// discovered label set, in combination order, and the first engine failure
/// aborts the whole batch.
pub fn build_all_plans(
    schema_str: &str,
    query_str: &str,
    query_path: &str,
    config: &QueryPlannerArgs,
    verbose: bool,
) -> (r: Result<Vec<QueryPlanResult>, AnalyzerError>)
    ensures
        r matches Ok(results) ==> exists|labels: Seq<Seq<char>>|
            {
                &&& #[trigger] distinct_labels(labels)
                &&& results.len() == pow2(labels.len())
                &&& forall|i: int|
                    0 <= i < results.len()
                        ==> (#[trigger] results[i].query_plan_config.override_conditions).deep_view()
                        == combination_for(labels, i as nat)
            },
        r matches Err(e) ==> match e {
            AnalyzerError::TooManyOverrideLabels { label_count } => pow2(label_count as nat)
                > usize::MAX,
            AnalyzerError::PlanBuild { override_conditions: failed, .. } => distinct_labels(
                failed.deep_view(),
            ),
            AnalyzerError::UnknownOverrideLabel { .. } => false,
            AnalyzerError::DuplicateOverrideLabel { .. } => false,
            AnalyzerError::OverrideAllConflict => false,
            _ => true,
        },
{
    let planner = match instantiate_planner(schema_str, config) {
        Ok(p) => p,
        Err(e) => {
            return Err(e);
        },
    };
    let query_doc = match parse_document(&planner, query_str, query_path) {
        Ok(d) => d,
        Err(message) => {
            return Err(AnalyzerError::Document { message });
        },
    };
    let labels = planner_override_labels(&planner);
    if try_pow2(labels.len()).is_none() {
        return Err(AnalyzerError::TooManyOverrideLabels { label_count: labels.len() });
    }
    let combinations = generate_all_possible_override_conditions(&labels);
    let total = combinations.len();
    let mut results: Vec<QueryPlanResult> = Vec::new();
    let mut index: usize = 0;
    while index < total
        invariant
            total == combinations.len(),
            index <= total,
            combinations.deep_view() == all_combinations(labels.deep_view()),
            distinct_labels(labels.deep_view()),
            results.len() == index,
            forall|i: int|
                0 <= i < index
                    ==> (#[trigger] results[i].query_plan_config.override_conditions).deep_view()
                    == combination_for(labels.deep_view(), i as nat),
        decreases total - index,
    {
        let override_conditions = clone_labels(&combinations[index]);
        proof {
            let l = labels.deep_view();
            assert(combinations.deep_view().len() == combinations@.len());
            assert(all_combinations(l).len() == pow2(l.len()));
            assert(combinations.deep_view()[index as int] == combination_for(l, index as nat));
            assert(override_conditions.deep_view() == combination_for(l, index as nat));
        }
        if verbose {
            emit_progress(index, &override_conditions);
        }
        let record = match plan_one_combination(&planner, &query_doc, override_conditions, verbose) {
            Ok(record) => record,
            Err(e) => {
                proof {
                    crate::combinations::lemma_enumeration_complete(labels.deep_view());
                }
                return Err(e);
            },
        };
        results.push(record);
        index = index + 1;
    }
    proof {
        let l = labels.deep_view();
        assert(combinations.deep_view().len() == combinations@.len());
        assert(all_combinations(l).len() == pow2(l.len()));
        assert(results.len() == pow2(l.len()));
        assert(distinct_labels(l) && results.len() == pow2(l.len()) && forall|i: int|
            0 <= i < results.len()
                ==> (#[trigger] results[i].query_plan_config.override_conditions).deep_view()
                == combination_for(l, i as nat));
    }
    Ok(results)
}

/// Validates the caller-supplied override conditions against the schema's
/// label set — or expands to every known label when `override_all` is set,
/// which excludes supplying explicit conditions — then builds exactly one
/// query plan. Success is only possible when the candidates pass validation
/// and the two modes were not mixed.
pub fn build_one_plan(
    schema_str: &str,
    query_str: &str,
    query_path: &str,
    config: &QueryPlannerArgs,
    override_conditions: Vec<String>,
    override_all: bool,
) -> (r: Result<QueryPlanResult, AnalyzerError>)
    ensures
        override_all && override_conditions.deep_view().len() > 0 ==> r is Err,
        ({
            let conds = override_conditions.deep_view();
            match r {
                Ok(result) => exists|labels: Seq<Seq<char>>|
                    {
                        &&& #[trigger] distinct_labels(labels)
                        &&& all_labels_known(labels, conds)
                        &&& distinct_labels(conds)
                        &&& !(override_all && conds.len() > 0)
                        &&& result.query_plan_config.override_conditions.deep_view() == if override_all {
                            labels
                        } else {
                            conds
                        }
                    },
                Err(e) => match e {
                    AnalyzerError::UnknownOverrideLabel { label, known } => {
                        &&& distinct_labels(known.deep_view())
                        &&& exists|i: int|
                            first_unknown_at(known.deep_view(), conds, i) && label@ == conds[i]
                    },
                    AnalyzerError::DuplicateOverrideLabel { label } => exists|i: int|
                        first_duplicate_at(conds, i) && label@ == conds[i],
                    AnalyzerError::OverrideAllConflict => override_all && conds.len() > 0,
                    AnalyzerError::TooManyOverrideLabels { .. } => false,
                    AnalyzerError::PlanBuild { override_conditions: failed, .. } => {
                        &&& !override_all ==> failed.deep_view() == conds
                        &&& distinct_labels(failed.deep_view())
                    },
                    _ => true,
                },
            }
        }),
{
    let planner = match instantiate_planner(schema_str, config) {
        Ok(p) => p,
        Err(e) => {
            return Err(e);
        },
    };
    let query_doc = match parse_document(&planner, query_str, query_path) {
        Ok(d) => d,
        Err(message) => {
            return Err(AnalyzerError::Document { message });
        },
    };
    let labels = planner_override_labels(&planner);
    let ghost conds0 = override_conditions.deep_view();
    match check_override_conditions(&labels, &override_conditions) {
        Ok(()) => {},
        Err(e) => {
            proof {
                let labs = labels.deep_view();
                match &e {
                    AnalyzerError::UnknownOverrideLabel { label, known } => {
                        let i = choose|i: int|
                            first_unknown_at(labs, conds0, i) && label@ == conds0[i];
                        assert(first_unknown_at(known.deep_view(), conds0, i) && label@
                            == conds0[i]);
                    },
                    _ => {},
                }
            }
            return Err(e);
        },
    }
    let chosen = if override_all {
        if override_conditions.len() > 0 {
            return Err(AnalyzerError::OverrideAllConflict);
        }
        clone_labels(&labels)
    } else {
        override_conditions
    };
    let ghost chosen0 = chosen.deep_view();
    proof {
        assert(chosen0 == if override_all {
            labels.deep_view()
        } else {
            conds0
        });
    }
    match plan_one_combination(&planner, &query_doc, chosen, false) {
        Ok(record) => {
            proof {
                let labs = labels.deep_view();
                assert(distinct_labels(labs) && all_labels_known(labs, conds0)
                    && distinct_labels(conds0) && !(override_all && conds0.len() > 0)
                    && record.query_plan_config.override_conditions.deep_view() == (if override_all {
                    labs
                } else {
                    conds0
                }));
            }
            Ok(record)
        },
        Err(e) => Err(e),
    }
}

} // verus!
