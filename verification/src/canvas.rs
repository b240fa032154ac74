//! Which children of a canvas are placed again before it is used.
use vstd::prelude::*;

verus! {

/// Decides which children of a canvas are placed again (at the canvas origin plus their own
/// position), and clears the dirty flags.
///
/// When the origin of the canvas changed, every child is placed again; otherwise only the
/// children whose position is dirty are. Afterwards no child is dirty and the origin counts as
/// unchanged.
pub fn plan_rebuild(origin_changed: &mut bool, position_dirty: &mut Vec<bool>) -> (r: Vec<bool>)
    ensures
        r@.len() == old(position_dirty)@.len(),
        forall|i: int|
            0 <= i < r@.len() ==> #[trigger] r@[i] == (*old(origin_changed) || old(
                position_dirty,
            )@[i]),
        final(position_dirty)@.len() == old(position_dirty)@.len(),
        forall|i: int| 0 <= i < final(position_dirty)@.len() ==> !#[trigger] final(position_dirty)@[i],
        !*final(origin_changed),
{
    let mut placed: Vec<bool> = Vec::new();
    let all = *origin_changed;
    let mut i: usize = 0;
    while i < position_dirty.len()
        invariant
            i <= position_dirty@.len(),
            position_dirty@.len() == old(position_dirty)@.len(),
            all == *old(origin_changed),
            placed@.len() == i,
            forall|j: int| 0 <= j < i ==> #[trigger] placed@[j] == (all || old(position_dirty)@[j]),
            forall|j: int| 0 <= j < i ==> !#[trigger] position_dirty@[j],
            forall|j: int| i <= j < position_dirty@.len() ==> #[trigger] position_dirty@[j] == old(position_dirty)@[j],
        decreases position_dirty@.len() - i,
    {
        let place = all || position_dirty[i];
        placed.push(place);
        position_dirty.set(i, false);
        i += 1;
    }
    *origin_changed = false;
    placed
}

} // verus!
