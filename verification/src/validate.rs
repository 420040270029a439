//! Validation of a user-supplied override-condition list against the schema's
//! label set.
//!
//! Two rules, checked in this order: every candidate must occur in the label
//! set, and no candidate may occur twice. The first offending candidate, in
//! scan order, is named in the error.

use vstd::prelude::*;

verus! {

use crate::combinations::distinct_labels;
use crate::error::AnalyzerError;

/// Every candidate occurs in the label set.
pub open spec fn all_labels_known(labels: Seq<Seq<char>>, conds: Seq<Seq<char>>) -> bool {
    forall|i: int| 0 <= i < conds.len() ==> labels.contains(#[trigger] conds[i])
}

/// The candidate at `i` repeats an earlier candidate.
pub open spec fn duplicate_at(conds: Seq<Seq<char>>, i: int) -> bool {
    exists|j: int| 0 <= j < i && conds[j] == conds[i]
}

/// The candidate at `i` is the first one missing from the label set.
pub open spec fn first_unknown_at(labels: Seq<Seq<char>>, conds: Seq<Seq<char>>, i: int) -> bool {
    &&& 0 <= i < conds.len()
    &&& !labels.contains(conds[i])
    &&& forall|j: int| 0 <= j < i ==> labels.contains(#[trigger] conds[j])
}

/// The candidate at `i` is the first one that repeats an earlier candidate.
pub open spec fn first_duplicate_at(conds: Seq<Seq<char>>, i: int) -> bool {
    &&& 0 <= i < conds.len()
    &&& duplicate_at(conds, i)
    &&& forall|j: int| 0 <= j < i ==> !duplicate_at(conds, j)
}

/// Whether `needle` occurs in `haystack`.
fn contains_label(haystack: &Vec<String>, needle: &String) -> (r: bool)
    ensures
        r == haystack.deep_view().contains(needle@),
{
    let n = haystack.len();
    for j in 0..n
        invariant
            n == haystack.len(),
            forall|k: int| 0 <= k < j ==> haystack.deep_view()[k] != needle@,
    {
        if haystack[j] == *needle {
            proof {
                assert(haystack.deep_view()[j as int] == needle@);
            }
            return true;
        }
    }
    false
}

/// Checks a candidate list against the label set: rejects a candidate absent
/// from the label set (naming it, together with the known labels), then a
/// candidate that occurs twice (naming the first repeated one).
pub fn check_override_conditions(
    override_labels: &Vec<String>,
    override_conditions: &Vec<String>,
) -> (r: Result<(), AnalyzerError>)
    ensures
        match r {
            Ok(()) => all_labels_known(override_labels.deep_view(), override_conditions.deep_view())
                && distinct_labels(override_conditions.deep_view()),
            Err(e) => match e {
                AnalyzerError::UnknownOverrideLabel { label, known } => {
                    &&& exists|i: int|
                        first_unknown_at(
                            override_labels.deep_view(),
                            override_conditions.deep_view(),
                            i,
                        ) && label@ == override_conditions.deep_view()[i]
                    &&& known.deep_view() == override_labels.deep_view()
                },
                AnalyzerError::DuplicateOverrideLabel { label } => {
                    &&& all_labels_known(
                        override_labels.deep_view(),
                        override_conditions.deep_view(),
                    )
                    &&& exists|i: int|
                        first_duplicate_at(override_conditions.deep_view(), i) && label@
                            == override_conditions.deep_view()[i]
                },
                _ => false,
            },
        },
{
    let n = override_conditions.len();
    for i in 0..n
        invariant
            n == override_conditions.len(),
            forall|k: int|
                0 <= k < i ==> override_labels.deep_view().contains(
                    #[trigger] override_conditions.deep_view()[k],
                ),
    {
        if !contains_label(override_labels, &override_conditions[i]) {
            let mut known: Vec<String> = Vec::new();
            let m = override_labels.len();
            for j in 0..m
                invariant
                    m == override_labels.len(),
                    known.deep_view() == override_labels.deep_view().take(j as int),
            {
                proof {
                    assert(override_labels.deep_view().take(j as int).len() == j as int);
                }
                known.push(override_labels[j].clone());
                assert(known.deep_view() =~~= override_labels.deep_view().take(j + 1));
            }
            assert(known.deep_view() =~~= override_labels.deep_view());
            let label = override_conditions[i].clone();
            proof {
                let labs = override_labels.deep_view();
                let conds = override_conditions.deep_view();
                assert(first_unknown_at(labs, conds, i as int) && label@ == conds[i as int]);
            }
            return Err(AnalyzerError::UnknownOverrideLabel { label, known });
        }
    }
    for i in 0..n
        invariant
            n == override_conditions.len(),
            all_labels_known(override_labels.deep_view(), override_conditions.deep_view()),
            forall|k: int| 0 <= k < i ==> !duplicate_at(override_conditions.deep_view(), k),
    {
        let mut j: usize = 0;
        while j < i
            invariant
                j <= i < n == override_conditions.len(),
                all_labels_known(override_labels.deep_view(), override_conditions.deep_view()),
                forall|k: int| 0 <= k < i ==> !duplicate_at(override_conditions.deep_view(), k),
                forall|k: int|
                    0 <= k < j ==> override_conditions.deep_view()[k]
                        != override_conditions.deep_view()[i as int],
            decreases i - j,
        {
            if override_conditions[j] == override_conditions[i] {
                let label = override_conditions[i].clone();
                proof {
                    let conds = override_conditions.deep_view();
                    assert(conds[j as int] == conds[i as int]);
                    assert(first_duplicate_at(conds, i as int) && label@ == conds[i as int]);
                }
                return Err(AnalyzerError::DuplicateOverrideLabel { label });
            }
            j = j + 1;
        }
        assert(!duplicate_at(override_conditions.deep_view(), i as int));
    }
    proof {
        let conds = override_conditions.deep_view();
        assert forall|i: int, j: int| 0 <= i < j < conds.len() implies conds[i] != conds[j] by {
            assert(!duplicate_at(conds, j));
        }
    }
    Ok(())
}

/// Law: a candidate list holding a label absent from the label set never
/// satisfies the validator's acceptance condition, so it is always rejected.
pub proof fn lemma_unknown_label_rejected(labels: Seq<Seq<char>>, conds: Seq<Seq<char>>, i: int)
    requires
        0 <= i < conds.len(),
        !labels.contains(conds[i]),
    ensures
        !all_labels_known(labels, conds),
{
}

/// Law: a candidate list holding the same label twice never satisfies the
/// validator's acceptance condition, so it is always rejected.
pub proof fn lemma_duplicate_label_rejected(conds: Seq<Seq<char>>, i: int, j: int)
    requires
        0 <= i < j < conds.len(),
        conds[i] == conds[j],
    ensures
        !distinct_labels(conds),
{
}

} // verus!
