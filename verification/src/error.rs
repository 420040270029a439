//! Error kinds surfaced by the analyzer.
//!
//! Validation failures are detected locally and carry the offending label;
//! failures of the schema compiler, the document compiler and the planning
//! engine carry the collaborator's diagnostic text unmodified.

use vstd::prelude::*;

verus! {

/// One failure of an analyzer operation.
#[derive(Debug, PartialEq, Eq)]
pub enum AnalyzerError {
    /// The supergraph schema was rejected while compiling it.
    Schema { message: String },
    /// The planning engine rejected the compiled schema or the configuration.
    Engine { message: String },
    /// The query document was rejected while parsing or validating it.
    Document { message: String },
    /// A candidate override condition does not occur in the schema's label set,
    /// which is carried along for diagnosability.
    UnknownOverrideLabel { label: String, known: Vec<String> },
    /// A candidate override condition occurs twice in the candidate list.
    DuplicateOverrideLabel { label: String },
    /// "Activate every label" was requested together with an explicit,
    /// non-empty candidate list; the two are mutually exclusive.
    OverrideAllConflict,
    /// The label set is so large that the count of its combinations does not
    /// fit in a machine word, so they cannot be enumerated on this machine.
    TooManyOverrideLabels { label_count: usize },
    /// The planning engine failed to build a plan for one combination, which
    /// is carried along so a caller can tell which combination was attempted.
    PlanBuild { override_conditions: Vec<String>, message: String },
}

} // verus!
