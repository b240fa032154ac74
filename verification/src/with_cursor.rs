//! The cursor stack of a window, and when an element that shows a cursor while hovered pushes
//! its cursor onto it or removes it.
use vstd::prelude::*;

verus! {

/// What an element that shows a cursor while hovered does to the cursor stack of its window.
#[derive(Debug, Clone, Copy, PartialEq, Eq, Structural)]
pub enum CursorAction {
    /// Nothing changes.
    Keep,
    /// The element's cursor is pushed onto the stack.
    Push,
    /// The element's cursor is removed from the stack.
    Pop,
}

/// Updates whether the element is hovered after the cursor moved, from whether the cursor now
/// hits the element, and tells what happens to the cursor stack: the element's cursor is pushed
/// when the element becomes hovered and removed when it stops being hovered.
pub fn cursor_moved(hovered: &mut bool, now_hovered: bool) -> (r: CursorAction)
    ensures
        *final(hovered) == now_hovered,
        r == cursor_action(*old(hovered), now_hovered),
{
    if now_hovered != *hovered {
        *hovered = now_hovered;
        if now_hovered {
            CursorAction::Push
        } else {
            CursorAction::Pop
        }
    } else {
        CursorAction::Keep
    }
}

/// What happens to the cursor stack when the cursor moves while the element is `hovered` and
/// then hits the element (`now_hovered`) or not.
pub open spec fn cursor_action(hovered: bool, now_hovered: bool) -> CursorAction {
    if hovered == now_hovered {
        CursorAction::Keep
    } else if now_hovered {
        CursorAction::Push
    } else {
        CursorAction::Pop
    }
}

/// The number of cursors an element pushes, minus the number it removes, while the cursor
/// moves through the positions `moves` (whether each position hits the element), starting
/// from the hovered state `hovered`.
pub open spec fn net_pushes(hovered: bool, moves: Seq<bool>) -> int
    decreases moves.len(),
{
    if moves.len() == 0 {
        0
    } else {
        (match cursor_action(hovered, moves[0]) {
            CursorAction::Push => 1int,
            CursorAction::Pop => -1int,
            CursorAction::Keep => 0int,
        }) + net_pushes(moves[0], moves.drop_first())
    }
}

/// Pushes and pops balance: whatever the cursor moves, an element that started unhovered has
/// exactly one cursor on the stack when the last move hits it, and none otherwise.
pub proof fn lemma_pushes_and_pops_balance(hovered: bool, moves: Seq<bool>)
    ensures
        net_pushes(hovered, moves) == (if moves.len() == 0 {
            0int
        } else {
            (if moves.last() {
                1int
            } else {
                0int
            }) - (if hovered {
                1int
            } else {
                0int
            })
        }),
    decreases moves.len(),
{
    if moves.len() > 0 {
        lemma_pushes_and_pops_balance(moves[0], moves.drop_first());
        if moves.len() > 1 {
            assert(moves.drop_first().last() == moves.last());
        }
    }
}

/// A stack of cursors, each with the ID it was pushed with; only the top one is displayed.
pub struct CursorStack<C> {
    stack: Vec<(u64, C)>,
    next_id: u64,
}

impl<C> CursorStack<C> {
    /// The cursors on the stack with their IDs, from the bottom to the top.
    pub closed spec fn entries(self) -> Seq<(u64, C)> {
        self.stack@
    }

    /// The ID that the next pushed cursor receives.
    pub closed spec fn spec_next_id(self) -> u64 {
        self.next_id
    }

    /// The IDs on the stack are distinct and were all given out.
    #[verifier::type_invariant]
    closed spec fn wf(self) -> bool {
        &&& forall|i: int| 0 <= i < self.entries().len() ==> #[trigger] self.entries()[i].0 < self.spec_next_id()
        &&& forall|i: int, j: int|
            0 <= i < j < self.entries().len() ==> #[trigger] self.entries()[i].0
                != #[trigger] self.entries()[j].0
    }

    /// Creates an empty stack.
    pub fn new() -> (r: Self)
        ensures
            r.entries() == Seq::<(u64, C)>::empty(),
            r.spec_next_id() == 0,
    {
        CursorStack { stack: Vec::new(), next_id: 0 }
    }

    /// Whether another cursor can be given an ID.
    pub fn can_push(&self) -> (r: bool)
        ensures
            r == (self.spec_next_id() < u64::MAX),
    {
        self.next_id < u64::MAX
    }

    /// Pushes a cursor on top of the stack, and returns its ID.
    pub fn push_cursor(&mut self, cursor: C) -> (r: u64)
        requires
            old(self).spec_next_id() < u64::MAX,
        ensures
            r == old(self).spec_next_id(),
            forall|i: int| 0 <= i < old(self).entries().len() ==> #[trigger] old(self).entries()[i].0 != r,
            final(self).entries() == old(self).entries().push((r, cursor)),
            final(self).spec_next_id() == r + 1,
    {
        proof {
            use_type_invariant(&*self);
        }
        let mut this = Self::new();
        core::mem::swap(self, &mut this);
        let CursorStack { mut stack, next_id } = this;
        let id = next_id;
        stack.push((id, cursor));
        proof {
            let e = stack@;
            assert forall|i: int| 0 <= i < e.len() implies #[trigger] e[i].0 < id + 1 by {
                if i < e.len() - 1 {
                    assert(e[i] == old(self).stack@[i]);
                }
            }
            assert forall|a: int, b: int| 0 <= a < b < e.len() implies #[trigger] e[a].0
                != #[trigger] e[b].0 by {
                assert(e[a] == old(self).stack@[a]);
                if b < e.len() - 1 {
                    assert(e[b] == old(self).stack@[b]);
                }
            }
        }
        *self = CursorStack { stack, next_id: id + 1 };
        id
    }

    /// Removes the cursor of ID `id` from the stack; nothing happens when it is not there.
    pub fn pop_cursor(&mut self, id: u64)
        ensures
            (exists|k: int| 0 <= k < old(self).entries().len() && old(self).entries()[k].0 == id)
                ==> exists|k: int|
                0 <= k < old(self).entries().len() && old(self).entries()[k].0 == id
                    && final(self).entries() == old(self).entries().remove(k),
            (forall|k: int| 0 <= k < old(self).entries().len() ==> old(self).entries()[k].0 != id)
                ==> final(self).entries() == old(self).entries(),
            forall|i: int| 0 <= i < final(self).entries().len() ==> #[trigger] final(self).entries()[i].0 != id,
            final(self).spec_next_id() == old(self).spec_next_id(),
    {
        proof {
            use_type_invariant(&*self);
        }
        let mut this = Self::new();
        core::mem::swap(self, &mut this);
        let CursorStack { mut stack, next_id } = this;
        let mut k: usize = 0;
        while k < stack.len()
            invariant
                stack@ == old(self).stack@,
                next_id == old(self).next_id,
                old(self).wf(),
                k <= stack@.len(),
                forall|i: int| 0 <= i < k ==> #[trigger] stack@[i].0 != id,
            decreases stack@.len() - k,
        {
            if stack[k].0 == id {
                let ghost before = stack@;
                let _ = stack.remove(k);
                proof {
                    let e = stack@;
                    assert forall|i: int| 0 <= i < e.len() implies #[trigger] e[i].0 < next_id by {
                        if i < k {
                            assert(e[i] == before[i]);
                        } else {
                            assert(e[i] == before[i + 1]);
                        }
                    }
                    assert forall|a: int, b: int| 0 <= a < b < e.len() implies #[trigger] e[a].0
                        != #[trigger] e[b].0 by {
                        let a2 = if a < k { a } else { a + 1 };
                        let b2 = if b < k { b } else { b + 1 };
                        assert(e[a] == before[a2] && e[b] == before[b2]);
                    }
                    assert forall|i: int| 0 <= i < e.len() implies #[trigger] e[i].0 != id by {
                        if i < k {
                            assert(e[i] == before[i]);
                        } else {
                            assert(e[i] == before[i + 1]);
                            assert(before[i + 1].0 != before[k as int].0);
                        }
                    }
                }
                *self = CursorStack { stack, next_id };
                return;
            }
            k += 1;
        }
        *self = CursorStack { stack, next_id };
    }

    /// The cursor on top of the stack, if any: the one to display.
    pub fn top(&self) -> (r: Option<&C>)
        ensures
            r == (if self.entries().len() == 0 {
                None
            } else {
                Some(&self.entries().last().1)
            }),
    {
        if self.stack.len() == 0 {
            None
        } else {
            Some(&self.stack[self.stack.len() - 1].1)
        }
    }
}

} // verus!
