//! The bookkeeping of a layout that lays out an unbounded number of children in one direction
//! and only keeps the visible ones alive.
use vstd::prelude::*;

verus! {

/// Indicates how much of a lazy linear layout is dirty.
#[derive(Debug, Clone, Copy, PartialEq, Eq, Structural)]
pub enum DirtyState {
    /// The layout is clean.
    Clean,
    /// The position, direction or gap size has changed.
    Position,
    /// The size of the children has changed.
    Size,
}

impl DirtyState {
    /// The position of the state in the order `Clean < Position < Size`.
    pub open spec fn rank(self) -> nat {
        match self {
            DirtyState::Clean => 0,
            DirtyState::Position => 1,
            DirtyState::Size => 2,
        }
    }

    /// The position of the state in the order `Clean < Position < Size`.
    pub fn level(self) -> (r: u8)
        ensures
            r == self.rank(),
    {
        match self {
            DirtyState::Clean => 0,
            DirtyState::Position => 1,
            DirtyState::Size => 2,
        }
    }

    /// Whether this state asks for at least as much work as `other`.
    pub fn at_least(self, other: Self) -> (r: bool)
        ensures
            r == (self.rank() >= other.rank()),
    {
        self.level() >= other.level()
    }

    /// Adds dirt to the layout: the state becomes the greater of itself and `dirt`.
    pub fn add_dirt(&mut self, dirt: Self)
        ensures
            *final(self) == (if old(self).rank() >= dirt.rank() {
                *old(self)
            } else {
                dirt
            }),
    {
        if !self.at_least(dirt) {
            *self = dirt;
        }
    }
}

/// What refreshing the children of the layout involves.
#[derive(Debug, Clone, Copy, PartialEq, Eq, Structural)]
pub struct RefreshPlan {
    /// The visible children are refreshed at all.
    pub refresh: bool,
    /// The children kept alive are placed again.
    pub reposition: bool,
    /// The children kept alive are given their size again.
    pub resize: bool,
}

/// Decides what refreshing the children of a layout in the dirty state `dirty` involves; the
/// layout is clean afterwards.
///
/// A clean layout does nothing. Otherwise the visible children are refreshed, the children
/// kept alive are placed again when the position (or the size) is dirty and resized when the
/// size is dirty.
pub fn plan_refresh(dirty: &mut DirtyState) -> (r: RefreshPlan)
    ensures
        r.refresh == (old(dirty).rank() >= 1),
        r.reposition == (old(dirty).rank() >= 1),
        r.resize == (old(dirty).rank() >= 2),
        *final(dirty) == DirtyState::Clean,
{
    let state = *dirty;
    *dirty = DirtyState::Clean;
    RefreshPlan {
        refresh: state.at_least(DirtyState::Position),
        reposition: state.at_least(DirtyState::Position),
        resize: state.at_least(DirtyState::Size),
    }
}

/// A child entry of a lazy linear layout: the index of the child along the layout, and the
/// child element itself.
pub struct ChildEntry<E> {
    /// The index of the child.
    pub index: usize,
    /// The child element.
    pub element: E,
}

/// Whether the child of index `index` stays alive when `skipped` children are skipped before
/// the visible area and `visible` children fit in it: the child is kept when its index lies
/// between `skipped` and `skipped + visible`, both included.
pub open spec fn kept(index: usize, skipped: usize, visible: usize) -> bool {
    skipped <= index <= skipped + visible
}

/// The entries of `children` whose index is kept, in their order.
pub open spec fn kept_entries<E>(children: Seq<ChildEntry<E>>, skipped: usize, visible: usize) -> Seq<
    ChildEntry<E>,
> {
    children.filter(|c: ChildEntry<E>| kept(c.index, skipped, visible))
}

/// Removes the children that are no longer visible, keeping the order of the others.
pub fn retain_visible<E>(children: Vec<ChildEntry<E>>, skipped: usize, visible: usize) -> (r: Vec<
    ChildEntry<E>,
>)
    ensures
        r@ == kept_entries(children@, skipped, visible),
{
    let ghost given = children@;
    let mut reversed: Vec<ChildEntry<E>> = Vec::new();
    let mut rest = children;
    while rest.len() > 0
        invariant
            rest@ + reversed@.reverse() == given,
        decreases rest@.len(),
    {
        let c = rest.pop().unwrap();
        proof {
            assert(reversed@.push(c).reverse() =~= seq![c] + reversed@.reverse());
        }
        reversed.push(c);
        proof {
            assert(rest@ + reversed@.reverse() =~= given);
        }
    }
    assert(reversed@.reverse() =~= given);
    let mut kept_children: Vec<ChildEntry<E>> = Vec::new();
    while reversed.len() > 0
        invariant
            reversed@.len() <= given.len(),
            reversed@.reverse() == given.skip(given.len() - reversed@.len()),
            kept_children@ == kept_entries(
                given.take(given.len() - reversed@.len()),
                skipped,
                visible,
            ),
        decreases reversed@.len(),
    {
        let ghost n = given.len() - reversed@.len();
        let ghost before = reversed@;
        let c = reversed.pop().unwrap();
        proof {
            assert(before =~= reversed@.push(c));
            assert(before.reverse() =~= seq![c] + reversed@.reverse());
            assert(given.skip(n)[0] == c) by {
                assert(given.skip(n) =~= seq![c] + reversed@.reverse());
            }
            assert(given.take(n + 1).drop_last() =~= given.take(n));
            assert(given.take(n + 1).last() == c);
            reveal(Seq::filter);
            assert(reversed@.reverse() =~= given.skip(n + 1)) by {
                assert(given.skip(n) =~= seq![c] + reversed@.reverse());
                assert(given.skip(n + 1) =~= given.skip(n).drop_first());
                assert((seq![c] + reversed@.reverse()).drop_first() =~= reversed@.reverse());
            }
        }
        if c.index >= skipped && c.index - skipped <= visible {
            kept_children.push(c);
        }
    }
    assert(given.take(given.len() as int) =~= given);
    kept_children
}

/// Whether one of the first `n` entries of `children` has the index `index`.
pub open spec fn has_index<E>(children: Seq<ChildEntry<E>>, n: int, index: int) -> bool {
    exists|j: int| 0 <= j < n && children[j].index == index
}

/// Whether `r` lists, in increasing order, exactly the indices from `skipped` (included) to
/// `skipped + visible` (excluded) that none of the entries of `children` has.
pub open spec fn is_missing_list<E>(
    children: Seq<ChildEntry<E>>,
    skipped: usize,
    visible: usize,
    r: Seq<usize>,
) -> bool {
    &&& forall|i: int, j: int| 0 <= i < j < r.len() ==> r[i] < r[j]
    &&& forall|i: int|
        0 <= i < r.len() ==> skipped <= #[trigger] r[i] < skipped + visible && !has_index(
            children,
            children.len() as int,
            r[i] as int,
        )
    &&& forall|index: int|
        skipped <= index < skipped + visible && !has_index(children, children.len() as int, index)
            ==> r.contains(index as usize)
}

/// The indices from `skipped` (included) to `skipped + visible` (excluded) that none of the
/// entries of `children` has: the children to create, in increasing order.
pub fn missing_indices<E>(children: &Vec<ChildEntry<E>>, skipped: usize, visible: usize) -> (r:
    Vec<usize>)
    requires
        skipped + visible <= usize::MAX,
    ensures
        is_missing_list(children@, skipped, visible, r@),
{
    let end = skipped + visible;
    let mut r: Vec<usize> = Vec::new();
    let mut index = skipped;
    while index < end
        invariant
            skipped <= index <= end,
            end == skipped + visible,
            forall|i: int, j: int| 0 <= i < j < r@.len() ==> r@[i] < r@[j],
            forall|i: int|
                0 <= i < r@.len() ==> skipped <= #[trigger] r@[i] < index && !has_index(
                    children@,
                    children@.len() as int,
                    r@[i] as int,
                ),
            forall|k: int|
                skipped <= k < index && !has_index(children@, children@.len() as int, k)
                    ==> r@.contains(k as usize),
        decreases end - index,
    {
        let mut present = false;
        let mut j: usize = 0;
        while j < children.len()
            invariant
                j <= children@.len(),
                present == has_index(children@, j as int, index as int),
            decreases children@.len() - j,
        {
            if children[j].index == index {
                present = true;
            }
            proof {
                if present && !has_index(children@, j as int, index as int) {
                    assert(children@[j as int].index == index);
                }
                if has_index(children@, j + 1, index as int) && !present {
                    let w = choose|w: int| 0 <= w < j + 1 && children@[w].index == index;
                    assert(w != j);
                }
            }
            j += 1;
        }
        if !present {
            proof {
                let ghost old_r = r@;
                assert forall|k: int|
                    skipped <= k < index && !has_index(children@, children@.len() as int, k)
                        implies old_r.push(index).contains(k as usize) by {
                    let w = choose|w: int| 0 <= w < old_r.len() && old_r[w] == k as usize;
                    assert(old_r.push(index)[w] == k as usize);
                }
            }
            r.push(index);
            proof {
                assert(r@[r@.len() - 1] == index);
            }
        }
        index += 1;
    }
    r
}

/// Whether no two entries of `children` have the same index.
pub open spec fn distinct_indices<E>(children: Seq<ChildEntry<E>>) -> bool {
    forall|i: int, j: int|
        0 <= i < j < children.len() ==> #[trigger] children[i].index != #[trigger] children[j].index
}

/// The entries kept are entries of `children` whose index is kept, every entry of `children`
/// whose index is kept has its index among them, and they have distinct indices when the
/// entries of `children` have.
pub proof fn lemma_kept_entries<E>(children: Seq<ChildEntry<E>>, skipped: usize, visible: usize)
    ensures
        ({
            let k = kept_entries(children, skipped, visible);
            &&& forall|i: int| 0 <= i < k.len() ==> kept(#[trigger] k[i].index, skipped, visible)
            &&& forall|i: int|
                #![trigger k[i]]
                0 <= i < k.len() ==> exists|j: int|
                    0 <= j < children.len() && #[trigger] children[j] == k[i]
            &&& forall|j: int|
                0 <= j < children.len() && kept(#[trigger] children[j].index, skipped, visible)
                    ==> has_index(k, k.len() as int, children[j].index as int)
            &&& distinct_indices(children) ==> distinct_indices(k)
        }),
    decreases children.len(),
{
    reveal(Seq::filter);
    if children.len() > 0 {
        let d = children.drop_last();
        lemma_kept_entries(d, skipped, visible);
        let kd = kept_entries(d, skipped, visible);
        let k = kept_entries(children, skipped, visible);
        assert(d.filter(|c: ChildEntry<E>| kept(c.index, skipped, visible)) == kd);
        let last = children.last();
        assert forall|i: int| #![trigger k[i]] 0 <= i < k.len() implies exists|j: int|
            0 <= j < children.len() && #[trigger] children[j] == k[i] by {
            if i < kd.len() {
                let j = choose|j: int| 0 <= j < d.len() && d[j] == kd[i];
                assert(children[j] == k[i]);
            } else {
                assert(children[children.len() - 1] == k[i]);
            }
        }
        assert forall|j: int|
            0 <= j < children.len() && kept(#[trigger] children[j].index, skipped, visible)
                implies has_index(k, k.len() as int, children[j].index as int) by {
            if j < children.len() - 1 {
                assert(d[j] == children[j]);
                let w = choose|w: int| 0 <= w < kd.len() && kd[w].index == d[j].index;
                assert(k[w] == kd[w]);
            } else {
                assert(k[k.len() - 1] == last);
            }
        }
        if distinct_indices(children) {
            assert forall|j: int| 0 <= j < d.len() implies #[trigger] d[j].index != last.index by {
                assert(d[j] == children[j]);
            }
            assert forall|a: int, b: int| 0 <= a < b < k.len() implies #[trigger] k[a].index
                != #[trigger] k[b].index by {
                if b < kd.len() {
                    assert(k[a] == kd[a] && k[b] == kd[b]);
                } else {
                    assert(k[a] == kd[a]);
                    let j = choose|j: int| 0 <= j < d.len() && d[j] == kd[a];
                    assert(d[j].index != last.index);
                }
            }
        }
    }
}

/// Refreshing the children keeps the invariant of the layout: when the children alive have
/// distinct indices, the children kept and those created for the missing indices have distinct
/// indices, all of them lie in the window of kept indices, and every index of the visible
/// range (as well as every kept index that was alive) belongs to one of them.
pub proof fn lemma_refresh_children<E>(
    children: Seq<ChildEntry<E>>,
    missing: Seq<usize>,
    skipped: usize,
    visible: usize,
)
    requires
        distinct_indices(children),
        is_missing_list(kept_entries(children, skipped, visible), skipped, visible, missing),
    ensures
        ({
            let k = kept_entries(children, skipped, visible);
            &&& distinct_indices(k)
            &&& forall|i: int, j: int| 0 <= i < j < missing.len() ==> missing[i] != missing[j]
            &&& forall|i: int, j: int|
                0 <= i < k.len() && 0 <= j < missing.len() ==> #[trigger] k[i].index
                    != #[trigger] missing[j]
            &&& forall|i: int| 0 <= i < k.len() ==> kept(#[trigger] k[i].index, skipped, visible)
            &&& forall|j: int| 0 <= j < missing.len() ==> kept(#[trigger] missing[j], skipped, visible)
            &&& forall|index: int|
                skipped <= index < skipped + visible ==> has_index(k, k.len() as int, index)
                    || missing.contains(index as usize)
            &&& forall|j: int|
                0 <= j < children.len() && kept(#[trigger] children[j].index, skipped, visible)
                    ==> has_index(k, k.len() as int, children[j].index as int)
        }),
{
    lemma_kept_entries(children, skipped, visible);
    let k = kept_entries(children, skipped, visible);
    assert forall|i: int, j: int|
        0 <= i < k.len() && 0 <= j < missing.len() implies #[trigger] k[i].index
            != #[trigger] missing[j] by {
        if k[i].index == missing[j] {
            assert(has_index(k, k.len() as int, missing[j] as int));
        }
    }
}

} // verus!
