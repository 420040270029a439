use qp_analyzer::AnalyzerError;
use qp_analyzer::validate::check_override_conditions;

fn labels(names: &[&str]) -> Vec<String> {
    names.iter().map(|s| s.to_string()).collect()
}

#[test]
fn empty_candidates_pass() {
    let r = check_override_conditions(&labels(&["a", "b"]), &labels(&[]));
    assert_eq!(r, Ok(()));
}

#[test]
fn known_distinct_candidates_pass() {
    let r = check_override_conditions(&labels(&["a", "b", "c"]), &labels(&["c", "a"]));
    assert_eq!(r, Ok(()));
}

#[test]
fn unknown_label_is_rejected_and_named() {
    let r = check_override_conditions(&labels(&["x"]), &labels(&["y"]));
    match r {
        Err(AnalyzerError::UnknownOverrideLabel { label, known }) => {
            assert_eq!(label, "y");
            assert_eq!(known, labels(&["x"]));
        }
        other => panic!("expected an unknown-label error, got {other:?}"),
    }
}

#[test]
fn first_unknown_label_in_scan_order_is_named() {
    let r = check_override_conditions(&labels(&["a", "b"]), &labels(&["b", "zz", "yy"]));
    match r {
        Err(AnalyzerError::UnknownOverrideLabel { label, known }) => {
            assert_eq!(label, "zz");
            assert_eq!(known, labels(&["a", "b"]));
        }
        other => panic!("expected an unknown-label error, got {other:?}"),
    }
}

#[test]
fn duplicate_label_is_rejected_and_named() {
    let r = check_override_conditions(&labels(&["x"]), &labels(&["x", "x"]));
    match r {
        Err(AnalyzerError::DuplicateOverrideLabel { label }) => {
            assert_eq!(label, "x");
        }
        other => panic!("expected a duplicate-label error, got {other:?}"),
    }
}

#[test]
fn first_repeated_label_in_scan_order_is_named() {
    let r = check_override_conditions(
        &labels(&["a", "b", "c"]),
        &labels(&["a", "b", "b", "a"]),
    );
    match r {
        Err(AnalyzerError::DuplicateOverrideLabel { label }) => {
            assert_eq!(label, "b");
        }
        other => panic!("expected a duplicate-label error, got {other:?}"),
    }
}

#[test]
fn unknown_label_takes_precedence_over_duplicate() {
    let r = check_override_conditions(&labels(&["a"]), &labels(&["a", "a", "zz"]));
    match r {
        Err(AnalyzerError::UnknownOverrideLabel { label, .. }) => {
            assert_eq!(label, "zz");
        }
        other => panic!("expected an unknown-label error, got {other:?}"),
    }
}
