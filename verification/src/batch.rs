//! Applying finished resolutions to a whole collection.
//!
//! Every entity's resolution is independent: each task owns exactly one
//! entity. The application step therefore accepts the completion order as an
//! argument and guarantees a result that does not depend on it: position by
//! position, the output entity is its input entity with its own resolution
//! written in — order preserved, nothing added, nothing removed.

use crate::entity::DataEntry;
use crate::resolve::apply_resolution;
use crate::resolve::resolved_entry;
use crate::resolve::ResolveState;
use vstd::prelude::*;

verus! {

/// Whether position `i` occurs among the first `upto` entries of the order.
pub open spec fn covered(order: Seq<usize>, upto: int, i: int) -> bool {
    exists|k: int| 0 <= k < upto && order[k] == i
}

proof fn lemma_resolved_idempotent(e: DataEntry, st: ResolveState)
    requires
        st.is_terminal(),
    ensures
        resolved_entry(resolved_entry(e, st), st) == resolved_entry(e, st),
{
    match st {
        ResolveState::Resolved(u) => {
            assert(resolved_entry(resolved_entry(e, st), st) =~= resolved_entry(e, st));
        },
        _ => {},
    }
}

/// Write every finished resolution into its entity, visiting entities in the
/// given completion order. The order must name every position (repeats are
/// harmless) but the outcome does not depend on it: the entity at each
/// position ends as its own input with its own resolution applied.
pub fn apply_resolutions(
    entries: &mut Vec<DataEntry>,
    states: &Vec<ResolveState>,
    order: &Vec<usize>,
)
    requires
        old(entries)@.len() == states@.len(),
        forall|i: int| 0 <= i < states@.len() ==> (#[trigger] states@[i]).is_terminal(),
        forall|k: int| 0 <= k < order@.len() ==> (#[trigger] order@[k]) < states@.len(),
        forall|i: int| 0 <= i < states@.len() ==> covered(order@, order@.len() as int, i),
    ensures
        final(entries)@.len() == old(entries)@.len(),
        forall|i: int|
            0 <= i < final(entries)@.len() ==> final(entries)@[i] == resolved_entry(
                old(entries)@[i],
                states@[i],
            ),
{
    let n = order.len();
    let mut k: usize = 0;
    while k < n
        invariant
            entries@.len() == old(entries)@.len(),
            old(entries)@.len() == states@.len(),
            n == order@.len(),
            k <= n,
            forall|i: int| 0 <= i < states@.len() ==> (#[trigger] states@[i]).is_terminal(),
            forall|k2: int| 0 <= k2 < order@.len() ==> (#[trigger] order@[k2]) < states@.len(),
            forall|i: int|
                0 <= i < entries@.len() && covered(order@, k as int, i) ==> entries@[i]
                    == resolved_entry(old(entries)@[i], states@[i]),
            forall|i: int|
                0 <= i < entries@.len() && !covered(order@, k as int, i) ==> entries@[i] == old(
                    entries,
                )@[i],
        decreases n - k,
    {
        let i = order[k];
        let ghost prev = entries@;
        apply_resolution(&mut entries[i], &states[i]);
        proof {
            let ii = i as int;
            assert(entries@ =~= prev.update(ii, resolved_entry(prev[ii], states@[ii])));
            if covered(order@, k as int, ii) {
                lemma_resolved_idempotent(old(entries)@[ii], states@[ii]);
            }
            assert(entries@[ii] == resolved_entry(old(entries)@[ii], states@[ii]));
            assert(covered(order@, k + 1 as int, ii));
            assert forall|j: int|
                0 <= j < entries@.len() && covered(order@, k + 1 as int, j) implies entries@[j]
                == resolved_entry(old(entries)@[j], states@[j]) by {
                if j != ii {
                    let k2 = choose|k2: int| 0 <= k2 < k + 1 && order@[k2] == j;
                    assert(k2 < k);
                    assert(covered(order@, k as int, j));
                }
            }
            assert forall|j: int|
                0 <= j < entries@.len() && !covered(order@, k + 1 as int, j) implies entries@[j]
                == old(entries)@[j] by {
                assert(!covered(order@, k as int, j));
                assert(j != ii);
            }
        }
        k = k + 1;
    }
}

/// Law: the batch outcome is deterministic in the per-entity resolutions and
/// independent of completion order — any two collections that satisfy the
/// postcondition of `apply_resolutions` for the same input and the same
/// resolutions are equal.
pub proof fn lemma_order_irrelevant(
    input: Seq<DataEntry>,
    states: Seq<ResolveState>,
    a: Seq<DataEntry>,
    b: Seq<DataEntry>,
)
    requires
        a.len() == input.len(),
        b.len() == input.len(),
        forall|i: int| 0 <= i < a.len() ==> a[i] == resolved_entry(input[i], #[trigger] states[i]),
        forall|i: int| 0 <= i < b.len() ==> b[i] == resolved_entry(input[i], #[trigger] states[i]),
    ensures
        a == b,
{
    assert forall|i: int| 0 <= i < a.len() implies a[i] == b[i] by {
        assert(a[i] == resolved_entry(input[i], states[i]));
        assert(b[i] == resolved_entry(input[i], states[i]));
    }
    assert(a =~= b);
}

/// Law: batch application preserves the entity sequence position by position:
/// no entity is added, removed or reordered, and at every position only the
/// image can differ from the input.
pub proof fn lemma_batch_preserves_sequence(
    input: Seq<DataEntry>,
    states: Seq<ResolveState>,
    output: Seq<DataEntry>,
)
    requires
        output.len() == input.len(),
        forall|i: int|
            0 <= i < output.len() ==> output[i] == resolved_entry(input[i], #[trigger] states[i]),
    ensures
        forall|i: int|
            0 <= i < output.len() ==> (#[trigger] output[i]).name == input[i].name
                && output[i].gender == input[i].gender && output[i].race == input[i].race
                && output[i].region == input[i].region && output[i].combat_level
                == input[i].combat_level && output[i].release_date == input[i].release_date,
{
    assert forall|i: int|
        0 <= i < output.len() implies (#[trigger] output[i]).name == input[i].name
        && output[i].gender == input[i].gender && output[i].race == input[i].race
        && output[i].region == input[i].region && output[i].combat_level == input[i].combat_level
        && output[i].release_date == input[i].release_date by {
        assert(output[i] == resolved_entry(input[i], states[i]));
    }
}

/// The in-order schedule over `n` positions, for a caller that applies
/// resolutions sequentially.
pub fn ascending_order(n: usize) -> (r: Vec<usize>)
    ensures
        r@.len() == n,
        forall|k: int| 0 <= k < n ==> #[trigger] r@[k] == k,
        forall|i: int| 0 <= i < n ==> covered(r@, n as int, i),
{
    let mut order: Vec<usize> = Vec::new();
    let mut k: usize = 0;
    while k < n
        invariant
            k <= n,
            order@.len() == k,
            forall|k2: int| 0 <= k2 < k ==> #[trigger] order@[k2] == k2,
        decreases n - k,
    {
        order.push(k);
        k = k + 1;
    }
    proof {
        assert forall|i: int| 0 <= i < n implies covered(order@, n as int, i) by {
            assert(order@[i] == i);
        }
    }
    order
}

} // verus!
