use qp_analyzer::combinations::generate_all_possible_override_conditions;
use qp_analyzer::combinations::try_pow2;

fn labels(names: &[&str]) -> Vec<String> {
    names.iter().map(|s| s.to_string()).collect()
}

#[test]
fn empty_label_set_yields_exactly_the_empty_combination() {
    let combos = generate_all_possible_override_conditions(&labels(&[]));
    assert_eq!(combos, vec![Vec::<String>::new()]);
}

#[test]
fn single_label_yields_empty_then_full() {
    let combos = generate_all_possible_override_conditions(&labels(&["x"]));
    assert_eq!(combos, vec![labels(&[]), labels(&["x"])]);
}

#[test]
fn two_labels_yield_four_combinations_in_order() {
    let combos = generate_all_possible_override_conditions(&labels(&["a", "b"]));
    assert_eq!(
        combos,
        vec![labels(&[]), labels(&["a"]), labels(&["b"]), labels(&["a", "b"])]
    );
}

#[test]
fn three_labels_yield_eight_combinations_in_order() {
    let combos = generate_all_possible_override_conditions(&labels(&["a", "b", "c"]));
    assert_eq!(
        combos,
        vec![
            labels(&[]),
            labels(&["a"]),
            labels(&["b"]),
            labels(&["a", "b"]),
            labels(&["c"]),
            labels(&["a", "c"]),
            labels(&["b", "c"]),
            labels(&["a", "b", "c"]),
        ]
    );
}

#[test]
fn count_is_two_to_the_n_with_no_duplicates() {
    let input = labels(&["p", "q", "r", "s", "t"]);
    let combos = generate_all_possible_override_conditions(&input);
    assert_eq!(combos.len(), 32);
    for i in 0..combos.len() {
        for j in 0..i {
            assert_ne!(combos[i], combos[j]);
        }
    }
    assert_eq!(combos[0], Vec::<String>::new());
    assert_eq!(combos[31], input);
}

#[test]
fn enumeration_is_reproducible() {
    let input = labels(&["one", "two", "three", "four"]);
    let first = generate_all_possible_override_conditions(&input);
    let second = generate_all_possible_override_conditions(&input);
    assert_eq!(first, second);
}

#[test]
fn try_pow2_small_values() {
    assert_eq!(try_pow2(0), Some(1));
    assert_eq!(try_pow2(1), Some(2));
    assert_eq!(try_pow2(10), Some(1024));
    assert_eq!(try_pow2(63), Some(1usize << 63));
}

#[test]
fn try_pow2_overflow_is_reported() {
    assert_eq!(try_pow2(64), None);
    assert_eq!(try_pow2(200), None);
}
