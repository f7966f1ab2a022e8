//! Ordering elements by an integer key, as `Itertools::sorted_by_key` does: a stable sort.
use vstd::prelude::*;
use itertools::Itertools;

verus! {

broadcast use vstd::seq_lib::group_to_multiset_ensures;

/// `positions` lists the positions of `keys` by ascending key, positions with equal keys
/// in their original order: the order that a stable sort by key gives.
pub open spec fn is_stable_order(keys: Seq<i128>, positions: Seq<usize>) -> bool {
    &&& positions.len() == keys.len()
    &&& forall|i: int| 0 <= i < positions.len() ==> #[trigger] positions[i] < keys.len()
    &&& positions.no_duplicates()
    &&& forall|j: usize| j < keys.len() ==> #[trigger] positions.contains(j)
    &&& forall|i: int, j: int| 0 <= i < j < positions.len() ==>
        keys[#[trigger] positions[i] as int] < keys[#[trigger] positions[j] as int]
        || (keys[positions[i] as int] == keys[positions[j] as int] && positions[i] < positions[j])
}

/// Each key paired with its position.
pub open spec fn keyed_positions(keys: Seq<i128>) -> Seq<(i128, usize)> {
    Seq::new(keys.len(), |i: int| (keys[i], i as usize))
}

/// Calls `Itertools::sorted_by_key` with the first component as the key. Claimed, as
/// its documentation says (it sorts with the stable `sort_by_key`): the same pairs,
/// in ascending order of key, pairs with equal keys in their original order, which
/// for pairs numbered by position means by ascending second component.
#[verifier::external_body]
fn sorted_by_first(items: Vec<(i128, usize)>) -> (sorted: Vec<(i128, usize)>)
    requires
        forall|k: int| 0 <= k < items@.len() ==> #[trigger] items@[k].1 == k,
    ensures
        sorted@.to_multiset() == items@.to_multiset(),
        forall|i: int, j: int| 0 <= i < j < sorted@.len() ==> #[trigger] sorted@[i].0 <= #[trigger] sorted@[j].0,
        forall|i: int, j: int| 0 <= i < j < sorted@.len() && #[trigger] sorted@[i].0 == #[trigger] sorted@[j].0
            ==> sorted@[i].1 < sorted@[j].1,
{
    items.into_iter().sorted_by_key(|pair| pair.0).collect()
}

/// The positions of `keys` in the order of a stable sort by key.
pub fn stable_order(keys: &[i128]) -> (positions: Vec<usize>)
    ensures
        is_stable_order(keys@, positions@),
{
    let mut items: Vec<(i128, usize)> = Vec::new();
    let mut i: usize = 0;
    while i < keys.len()
        invariant
            i <= keys@.len(),
            items@ == keyed_positions(keys@).take(i as int),
        decreases keys@.len() - i,
    {
        items.push((keys[i], i));
        i = i + 1;
        assert(items@ =~= keyed_positions(keys@).take(i as int));
    }
    assert(items@ =~= keyed_positions(keys@));
    let ghost pairs = items@;
    let sorted = sorted_by_first(items);
    proof {
        assert(pairs.no_duplicates());
        pairs.lemma_multiset_has_no_duplicates();
        assert forall|x: (i128, usize)| sorted@.to_multiset().contains(x) implies sorted@.to_multiset().count(x) == 1 by {}
        sorted@.lemma_multiset_has_no_duplicates_conv();
        assert forall|k: int| 0 <= k < sorted@.len() implies #[trigger] sorted@[k] == pairs[sorted@[k].1 as int]
            && sorted@[k].1 < keys@.len() by {
            assert(sorted@.to_multiset().contains(sorted@[k]));
            assert(pairs.to_multiset().contains(sorted@[k]));
            assert(pairs.contains(sorted@[k]));
        }
    }
    let mut positions: Vec<usize> = Vec::new();
    let mut j: usize = 0;
    while j < sorted.len()
        invariant
            j <= sorted@.len(),
            positions@ == sorted@.take(j as int).map_values(|p: (i128, usize)| p.1),
        decreases sorted@.len() - j,
    {
        positions.push(sorted[j].1);
        j = j + 1;
        assert(positions@ =~= sorted@.take(j as int).map_values(|p: (i128, usize)| p.1));
    }
    proof {
        assert(sorted@.take(j as int) =~= sorted@);
        assert(pairs.to_multiset().len() == sorted@.to_multiset().len());
        assert forall|k: usize| k < keys@.len() implies #[trigger] positions@.contains(k) by {
            assert(pairs[k as int] == (keys@[k as int], k));
            assert(pairs.to_multiset().contains(pairs[k as int]));
            assert(sorted@.to_multiset().contains(pairs[k as int]));
            assert(sorted@.contains(pairs[k as int]));
            let p = choose|p: int| 0 <= p < sorted@.len() && sorted@[p] == pairs[k as int];
            assert(positions@[p] == k);
        }
        assert forall|a: int, b: int| 0 <= a < positions@.len() && 0 <= b < positions@.len() && a != b
            implies positions@[a] != positions@[b] by {
            assert(sorted@[a] == pairs[sorted@[a].1 as int]);
            assert(sorted@[b] == pairs[sorted@[b].1 as int]);
        }
        assert forall|a: int, b: int| 0 <= a < b < positions@.len() implies
            keys@[#[trigger] positions@[a] as int] < keys@[#[trigger] positions@[b] as int]
            || (keys@[positions@[a] as int] == keys@[positions@[b] as int] && positions@[a] < positions@[b]) by {
            assert(sorted@[a] == pairs[sorted@[a].1 as int]);
            assert(sorted@[b] == pairs[sorted@[b].1 as int]);
            assert(sorted@[a].0 <= sorted@[b].0);
        }
    }
    positions
}

/// The first position with the smallest key, as the first element of a stable sort
/// by key; `None` without keys.
pub fn first_by_key(keys: &[i128]) -> (first: Option<usize>)
    ensures
        first is None <==> keys@.len() == 0,
        first matches Some(i) ==> i < keys@.len() && forall|j: int| 0 <= j < keys@.len() ==>
            keys@[i as int] < #[trigger] keys@[j] || (keys@[i as int] == keys@[j] && i <= j),
{
    let order = stable_order(keys);
    if order.len() == 0 {
        None
    } else {
        proof {
            assert forall|j: int| 0 <= j < keys@.len() implies
                keys@[order@[0] as int] < #[trigger] keys@[j] || (keys@[order@[0] as int] == keys@[j] && order@[0] <= j) by {
                assert(order@.len() == keys@.len());
                assert(order@.contains(j as usize));
                let p = choose|p: int| 0 <= p < order@.len() && order@[p] == j;
                if p > 0 {
                    assert(order@[0] != order@[p]);
                }
            }
        }
        Some(order[0])
    }
}

} // verus!
