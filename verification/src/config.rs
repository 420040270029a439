//! User-chosen planner knobs, mirroring the Router's configuration options.

use vstd::prelude::*;

verus! {

/// The evaluated-plans bound applied when the caller picks zero.
pub const DEFAULT_PLANS_LIMIT: u32 = 10_000;

/// Planner arguments as a caller supplies them, before normalization.
#[derive(Debug)]
pub struct QueryPlannerArgs {
    /// Disable optimization of subgraph fetch queries using fragments.
    pub disable_generate_query_fragments: bool,
    /// Disable defer support.
    pub disable_defer_support: bool,
    /// Enable type conditioned fetching.
    pub experimental_type_conditioned_fetching: bool,
    /// Limit to the number of generated query plans; zero selects the default.
    pub experimental_plans_limit: u32,
    /// Per-path limit to the number of options considered; zero means no limit.
    pub experimental_paths_limit: u32,
}

impl QueryPlannerArgs {
    /// The evaluated-plans bound actually applied: zero is normalized to the
    /// default, so the bound handed to the engine is never zero.
    pub fn max_evaluated_plans(&self) -> (r: u32)
        ensures
            r == if self.experimental_plans_limit == 0 {
                DEFAULT_PLANS_LIMIT as int
            } else {
                self.experimental_plans_limit as int
            },
            r >= 1,
    {
        if self.experimental_plans_limit == 0 {
            DEFAULT_PLANS_LIMIT
        } else {
            self.experimental_plans_limit
        }
    }

    /// The per-path bound actually applied: zero is normalized to "unbounded".
    pub fn paths_limit(&self) -> (r: Option<u32>)
        ensures
            r == if self.experimental_paths_limit == 0 {
                Option::<u32>::None
            } else {
                Option::Some(self.experimental_paths_limit)
            },
    {
        if self.experimental_paths_limit == 0 {
            None
        } else {
            Some(self.experimental_paths_limit)
        }
    }
}

impl Default for QueryPlannerArgs {
    /// Every toggle off, the plans limit at its default, no paths limit.
    fn default() -> (r: Self)
        ensures
            !r.disable_generate_query_fragments,
            !r.disable_defer_support,
            !r.experimental_type_conditioned_fetching,
            r.experimental_plans_limit == DEFAULT_PLANS_LIMIT,
            r.experimental_paths_limit == 0,
    {
        QueryPlannerArgs {
            disable_generate_query_fragments: false,
            disable_defer_support: false,
            experimental_type_conditioned_fetching: false,
            experimental_plans_limit: DEFAULT_PLANS_LIMIT,
            experimental_paths_limit: 0,
        }
    }
}

} // verus!
