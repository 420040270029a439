//! Enumeration of override-condition combinations.
//!
//! A schema's override labels form an ordered sequence; a *combination* is the
//! subsequence of labels that are active for one planning attempt. Every subset
//! of the label sequence is enumerated exactly once, in a fixed order: the
//! combination at position `mask` contains label `i` exactly when bit `i` of
//! `mask` is set, so the empty combination comes first and the full one last.

use vstd::prelude::*;

verus! {

use vstd::arithmetic::power2::pow2;

/// True when bit `i` of `mask` is set.
pub open spec fn mask_bit(mask: nat, i: nat) -> bool {
    (mask / pow2(i)) % 2 == 1
}

/// The labels among the first `i` of `labels` whose bit in `mask` is set,
/// in label order.
pub open spec fn combination_prefix(labels: Seq<Seq<char>>, mask: nat, i: int) -> Seq<Seq<char>>
    decreases i,
{
    if i <= 0 {
        Seq::empty()
    } else if mask_bit(mask, (i - 1) as nat) {
        combination_prefix(labels, mask, i - 1).push(labels[i - 1])
    } else {
        combination_prefix(labels, mask, i - 1)
    }
}

/// The combination selected by `mask`: every label whose bit is set, in label order.
pub open spec fn combination_for(labels: Seq<Seq<char>>, mask: nat) -> Seq<Seq<char>> {
    combination_prefix(labels, mask, labels.len() as int)
}

/// All `pow2(labels.len())` combinations, ordered by their mask.
pub open spec fn all_combinations(labels: Seq<Seq<char>>) -> Seq<Seq<Seq<char>>> {
    Seq::new(pow2(labels.len()), |m: int| combination_for(labels, m as nat))
}

/// No label occurs twice in the sequence.
pub open spec fn distinct_labels(labels: Seq<Seq<char>>) -> bool {
    forall|i: int, j: int| 0 <= i < j < labels.len() ==> labels[i] != labels[j]
}

/// Computes `pow2(n)` when it fits in a `usize`, and reports overflow otherwise.
pub fn try_pow2(n: usize) -> (r: Option<usize>)
    ensures
        match r {
            Some(v) => v as nat == pow2(n as nat),
            None => pow2(n as nat) > usize::MAX,
        },
{
    let mut v: usize = 1;
    let mut i: usize = 0;
    proof {
        vstd::arithmetic::power2::lemma2_to64();
    }
    while i < n
        invariant
            i <= n,
            v as nat == pow2(i as nat),
        decreases n - i,
    {
        proof {
            vstd::arithmetic::power2::lemma_pow2_unfold((i + 1) as nat);
        }
        if v > usize::MAX / 2 {
            proof {
                if i + 1 < n {
                    vstd::arithmetic::power2::lemma_pow2_strictly_increases(
                        (i + 1) as nat,
                        n as nat,
                    );
                }
            }
            return None;
        }
        v = v * 2;
        i = i + 1;
    }
    Some(v)
}

/// Builds the single combination selected by `mask`.
fn combination_for_mask(labels: &Vec<String>, mask: usize) -> (combo: Vec<String>)
    ensures
        combo.deep_view() == combination_for(labels.deep_view(), mask as nat),
{
    let n = labels.len();
    let mut combo: Vec<String> = Vec::new();
    let mut m: usize = mask;
    proof {
        vstd::arithmetic::power2::lemma2_to64();
    }
    for i in 0..n
        invariant
            n == labels.len(),
            m as nat == mask as nat / pow2(i as nat),
            combo.deep_view() == combination_prefix(labels.deep_view(), mask as nat, i as int),
    {
        proof {
            vstd::arithmetic::power2::lemma_pow2_pos(i as nat);
            vstd::arithmetic::power2::lemma_pow2_unfold((i + 1) as nat);
            vstd::arithmetic::div_mod::lemma_div_denominator(
                mask as int,
                pow2(i as nat) as int,
                2,
            );
        }
        if m % 2 == 1 {
            combo.push(labels[i].clone());
        }
        m = m / 2;
        assert(combo.deep_view() =~~= combination_prefix(
            labels.deep_view(),
            mask as nat,
            i + 1,
        ));
    }
    combo
}

/// Enumerates every combination of the given labels, in mask order: the
/// combination at position `m` holds exactly the labels whose bit in `m` is
/// set. The empty combination comes first and the full one last.
pub fn generate_all_possible_override_conditions(labels: &Vec<String>) -> (result: Vec<
    Vec<String>,
>)
    requires
        pow2(labels.deep_view().len()) <= usize::MAX,
    ensures
        result.deep_view() == all_combinations(labels.deep_view()),
{
    let count = match try_pow2(labels.len()) {
        Some(c) => c,
        None => {
            proof {
                assert(false);
            }
            0
        },
    };
    let mut result: Vec<Vec<String>> = Vec::new();
    let mut mask: usize = 0;
    while mask < count
        invariant
            count as nat == pow2(labels.deep_view().len()),
            mask <= count,
            result.deep_view() == all_combinations(labels.deep_view()).take(mask as int),
        decreases count - mask,
    {
        let combo = combination_for_mask(labels, mask);
        proof {
            let l = labels.deep_view();
            assert(all_combinations(l).take(mask as int).len() == mask as int);
        }
        result.push(combo);
        mask = mask + 1;
        assert(result.deep_view() =~~= all_combinations(labels.deep_view()).take(mask as int));
    }
    assert(result.deep_view() =~~= all_combinations(labels.deep_view()));
    result
}

proof fn lemma_prefix_of_zero_mask(labels: Seq<Seq<char>>, i: int)
    ensures
        combination_prefix(labels, 0, i) == Seq::<Seq<char>>::empty(),
    decreases i,
{
    if i > 0 {
        vstd::arithmetic::power2::lemma_pow2_pos((i - 1) as nat);
        lemma_prefix_of_zero_mask(labels, i - 1);
    }
}

proof fn lemma_full_mask_bit(n: nat, i: nat)
    requires
        i < n,
    ensures
        mask_bit((pow2(n) - 1) as nat, i),
{
    vstd::arithmetic::power2::lemma_pow2_pos(i);
    vstd::arithmetic::power2::lemma_pow2_pos((n - i) as nat);
    vstd::arithmetic::power2::lemma_pow2_adds(i, (n - i) as nat);
    vstd::arithmetic::power2::lemma_pow2_unfold((n - i) as nat);
    let p = pow2(i) as int;
    let q = pow2((n - i) as nat) as int - 1;
    assert(pow2(n) as int == p * (q + 1));
    assert(p * (q + 1) == q * p + p) by (nonlinear_arith);
    assert(pow2(n) as int - 1 == q * p + (p - 1));
    vstd::arithmetic::div_mod::lemma_fundamental_div_mod_converse(
        pow2(n) as int - 1,
        p,
        q,
        p - 1,
    );
    vstd::arithmetic::power2::lemma_pow2_pos((n - i - 1) as nat);
    vstd::arithmetic::div_mod::lemma_fundamental_div_mod_converse(
        q,
        2,
        pow2((n - i - 1) as nat) as int - 1,
        1,
    );
}

proof fn lemma_prefix_of_full_mask(labels: Seq<Seq<char>>, i: int)
    requires
        0 <= i <= labels.len(),
    ensures
        combination_prefix(labels, (pow2(labels.len()) - 1) as nat, i) == labels.take(i),
    decreases i,
{
    vstd::arithmetic::power2::lemma_pow2_pos(labels.len());
    if i > 0 {
        lemma_prefix_of_full_mask(labels, i - 1);
        lemma_full_mask_bit(labels.len(), (i - 1) as nat);
        assert(labels.take(i) =~= labels.take(i - 1).push(labels[i - 1]));
    } else {
        assert(labels.take(0) =~= Seq::<Seq<char>>::empty());
    }
}

proof fn lemma_prefix_membership(labels: Seq<Seq<char>>, mask: nat, i: int)
    requires
        0 <= i <= labels.len(),
    ensures
        forall|k: int|
            0 <= k < combination_prefix(labels, mask, i).len() ==> #[trigger] labels.take(
                i,
            ).contains(combination_prefix(labels, mask, i)[k]),
    decreases i,
{
    if i > 0 {
        lemma_prefix_membership(labels, mask, i - 1);
        let prev = combination_prefix(labels, mask, i - 1);
        let cur = combination_prefix(labels, mask, i);
        assert forall|k: int| 0 <= k < cur.len() implies #[trigger] labels.take(i).contains(
            cur[k],
        ) by {
            if k < prev.len() {
                let shorter = labels.take(i - 1);
                assert(shorter.contains(prev[k]));
                let j = choose|j: int| 0 <= j < shorter.len() && shorter[j] == prev[k];
                assert(labels.take(i)[j] == cur[k]);
            } else {
                assert(cur[k] == labels[i - 1]);
                assert(labels.take(i)[i - 1] == labels[i - 1]);
            }
        }
    }
}

proof fn lemma_prefix_no_duplicates(labels: Seq<Seq<char>>, mask: nat, i: int)
    requires
        distinct_labels(labels),
        0 <= i <= labels.len(),
    ensures
        distinct_labels(combination_prefix(labels, mask, i)),
    decreases i,
{
    if i > 0 {
        lemma_prefix_no_duplicates(labels, mask, i - 1);
        if mask_bit(mask, (i - 1) as nat) {
            let prev = combination_prefix(labels, mask, i - 1);
            lemma_prefix_membership(labels, mask, i - 1);
            assert forall|k: int| 0 <= k < prev.len() implies prev[k] != labels[i - 1] by {
                let shorter = labels.take(i - 1);
                assert(shorter.contains(prev[k]));
                let j = choose|j: int| 0 <= j < shorter.len() && shorter[j] == prev[k];
                assert(labels[j] == prev[k]);
            }
        }
    }
}

proof fn lemma_prefix_determines_bits(labels: Seq<Seq<char>>, m1: nat, m2: nat, i: int)
    requires
        distinct_labels(labels),
        0 <= i <= labels.len(),
        combination_prefix(labels, m1, i) == combination_prefix(labels, m2, i),
    ensures
        forall|j: nat| j < i ==> mask_bit(m1, j) == mask_bit(m2, j),
    decreases i,
{
    if i > 0 {
        let p1 = combination_prefix(labels, m1, i - 1);
        let p2 = combination_prefix(labels, m2, i - 1);
        let b1 = mask_bit(m1, (i - 1) as nat);
        let b2 = mask_bit(m2, (i - 1) as nat);
        lemma_prefix_membership(labels, m1, i - 1);
        lemma_prefix_membership(labels, m2, i - 1);
        if b1 && !b2 {
            let last = p1.push(labels[i - 1])[p1.len() as int];
            assert(last == labels[i - 1]);
            assert(p2.contains(labels[i - 1])) by {
                assert(p2[p2.len() - 1] == labels[i - 1]);
            }
            let k = choose|k: int| 0 <= k < p2.len() && p2[k] == labels[i - 1];
            let shorter = labels.take(i - 1);
            assert(shorter.contains(p2[k]));
            let j = choose|j: int| 0 <= j < shorter.len() && shorter[j] == p2[k];
            assert(labels[j] == labels[i - 1]);
            assert(false);
        } else if !b1 && b2 {
            let last = p2.push(labels[i - 1])[p2.len() as int];
            assert(last == labels[i - 1]);
            assert(p1.contains(labels[i - 1])) by {
                assert(p1[p1.len() - 1] == labels[i - 1]);
            }
            let k = choose|k: int| 0 <= k < p1.len() && p1[k] == labels[i - 1];
            let shorter = labels.take(i - 1);
            assert(shorter.contains(p1[k]));
            let j = choose|j: int| 0 <= j < shorter.len() && shorter[j] == p1[k];
            assert(labels[j] == labels[i - 1]);
            assert(false);
        } else {
            if b1 && b2 {
                assert(combination_prefix(labels, m1, i) == p1.push(labels[i - 1]));
                assert(combination_prefix(labels, m2, i) == p2.push(labels[i - 1]));
                assert(p1 =~= p2) by {
                    assert forall|k: int| 0 <= k < p1.len() implies p1[k] == p2[k] by {
                        assert(p1.push(labels[i - 1])[k] == p2.push(labels[i - 1])[k]);
                    }
                }
            }
            lemma_prefix_determines_bits(labels, m1, m2, i - 1);
        }
    }
}

proof fn lemma_shifted_bit(m: nat, j: nat)
    ensures
        mask_bit(m / 2, j) == mask_bit(m, j + 1),
{
    vstd::arithmetic::power2::lemma_pow2_pos(j);
    vstd::arithmetic::power2::lemma_pow2_unfold(j + 1);
    vstd::arithmetic::div_mod::lemma_div_denominator(m as int, 2, pow2(j) as int);
}

proof fn lemma_bits_determine_mask(m1: nat, m2: nat, n: nat)
    requires
        m1 < pow2(n),
        m2 < pow2(n),
        forall|j: nat| j < n ==> mask_bit(m1, j) == mask_bit(m2, j),
    ensures
        m1 == m2,
    decreases n,
{
    if n == 0 {
        assert(pow2(0) == 1) by {
            vstd::arithmetic::power2::lemma2_to64();
        }
    } else {
        vstd::arithmetic::power2::lemma_pow2_unfold(n);
        assert(mask_bit(m1, 0) == (m1 % 2 == 1)) by {
            vstd::arithmetic::power2::lemma2_to64();
        }
        assert(mask_bit(m2, 0) == (m2 % 2 == 1)) by {
            vstd::arithmetic::power2::lemma2_to64();
        }
        assert(m1 % 2 == m2 % 2);
        let h1 = m1 / 2;
        let h2 = m2 / 2;
        assert forall|j: nat| j < (n - 1) as nat implies mask_bit(h1, j) == mask_bit(h2, j) by {
            lemma_shifted_bit(m1, j);
            lemma_shifted_bit(m2, j);
            assert(mask_bit(m1, j + 1) == mask_bit(m2, j + 1));
        }
        lemma_bits_determine_mask(h1, h2, (n - 1) as nat);
        vstd::arithmetic::div_mod::lemma_fundamental_div_mod(m1 as int, 2);
        vstd::arithmetic::div_mod::lemma_fundamental_div_mod(m2 as int, 2);
    }
}

/// Law: for `N` labels with no duplicates, the enumeration holds exactly
/// `pow2(N)` combinations, none of them twice; the first is the empty
/// combination and the last activates every label. Moreover each combination
/// is itself duplicate-free and drawn from the label sequence.
pub proof fn lemma_enumeration_complete(labels: Seq<Seq<char>>)
    requires
        distinct_labels(labels),
    ensures
        all_combinations(labels).len() == pow2(labels.len()),
        all_combinations(labels)[0] == Seq::<Seq<char>>::empty(),
        all_combinations(labels)[all_combinations(labels).len() - 1] == labels,
        forall|m1: int, m2: int|
            0 <= m1 < m2 < all_combinations(labels).len() ==> all_combinations(labels)[m1]
                != all_combinations(labels)[m2],
        forall|m: int|
            0 <= m < all_combinations(labels).len() ==> distinct_labels(
                #[trigger] all_combinations(labels)[m],
            ),
        forall|m: int, k: int|
            0 <= m < all_combinations(labels).len() && 0 <= k
                < all_combinations(labels)[m].len() ==> labels.contains(
                #[trigger] all_combinations(labels)[m][k],
            ),
{
    let n = labels.len();
    vstd::arithmetic::power2::lemma_pow2_pos(n);
    lemma_prefix_of_zero_mask(labels, n as int);
    lemma_prefix_of_full_mask(labels, n as int);
    assert(labels.take(n as int) =~= labels);
    assert forall|m1: int, m2: int|
        0 <= m1 < m2 < all_combinations(labels).len() implies all_combinations(labels)[m1]
        != all_combinations(labels)[m2] by {
        let mm1 = m1 as nat;
        let mm2 = m2 as nat;
        if combination_for(labels, mm1) == combination_for(labels, mm2) {
            lemma_prefix_determines_bits(labels, mm1, mm2, n as int);
            lemma_bits_determine_mask(mm1, mm2, n);
        }
    }
    assert forall|m: int| 0 <= m < all_combinations(labels).len() implies distinct_labels(
        #[trigger] all_combinations(labels)[m],
    ) by {
        lemma_prefix_no_duplicates(labels, m as nat, n as int);
    }
    assert forall|m: int, k: int|
        0 <= m < all_combinations(labels).len() && 0 <= k
            < all_combinations(labels)[m].len() implies labels.contains(
        #[trigger] all_combinations(labels)[m][k],
    ) by {
        lemma_prefix_membership(labels, m as nat, n as int);
        let c = all_combinations(labels)[m];
        assert(labels.take(n as int).contains(c[k]));
        let whole = labels.take(n as int);
        assert(whole.contains(c[k]));
        let j = choose|j: int| 0 <= j < whole.len() && whole[j] == c[k];
        assert(labels[j] == c[k]);
    }
}

/// Law: enumeration is reproducible. Two enumerations of the same label
/// sequence are identical, element for element.
pub proof fn lemma_enumeration_reproducible(
    labels: Seq<Seq<char>>,
    first: Seq<Seq<Seq<char>>>,
    second: Seq<Seq<Seq<char>>>,
)
    requires
        first == all_combinations(labels),
        second == all_combinations(labels),
    ensures
        first == second,
{
}

} // verus!
