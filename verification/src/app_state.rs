//! Timed callbacks of the application, and when the event loop has to wake up for them.
//!
//! Instants are counted in ticks (for example nanoseconds since the application started): the
//! library only compares them.
use vstd::prelude::*;

verus! {

broadcast use vstd::seq_lib::group_to_multiset_ensures;

/// How the event loop waits for new events.
#[derive(Debug, Clone, Copy, PartialEq, Eq, Structural)]
pub enum ControlFlow {
    /// The event loop does not wait.
    Poll,
    /// The event loop waits for the next event.
    Wait,
    /// The event loop waits for the next event, or until the given instant.
    WaitUntil(u64),
}

/// The control flow after a callback was requested at `instant` while the control flow was
/// `current`: the event loop keeps waking at an earlier instant it already waits for, and
/// otherwise wakes at `instant`.
pub open spec fn control_flow_after_request(current: ControlFlow, instant: u64) -> ControlFlow {
    match current {
        ControlFlow::WaitUntil(when) => if when < instant {
            current
        } else {
            ControlFlow::WaitUntil(instant)
        },
        _ => ControlFlow::WaitUntil(instant),
    }
}

/// The earliest instant among the entries of `s`, if any.
pub open spec fn earliest<T>(s: Seq<(u64, T)>) -> Option<u64>
    decreases s.len(),
{
    if s.len() == 0 {
        None
    } else {
        match earliest(s.drop_last()) {
            Some(w) => if w < s.last().0 {
                Some(w)
            } else {
                Some(s.last().0)
            },
            None => Some(s.last().0),
        }
    }
}

/// The earliest instant of a sequence is the instant of one of its entries, and no entry is
/// earlier.
pub proof fn lemma_earliest<T>(s: Seq<(u64, T)>)
    ensures
        earliest(s) is None <==> s.len() == 0,
        earliest(s) matches Some(w) ==> (exists|i: int| 0 <= i < s.len() && s[i].0 == w) && (
        forall|i: int| 0 <= i < s.len() ==> w <= #[trigger] s[i].0),
    decreases s.len(),
{
    if s.len() > 0 {
        lemma_earliest(s.drop_last());
        let w = earliest(s).unwrap();
        if earliest(s.drop_last()) is Some && earliest(s.drop_last()).unwrap() < s.last().0 {
            let j = choose|j: int| 0 <= j < s.drop_last().len() && s.drop_last()[j].0 == w;
            assert(s[j].0 == w);
        } else {
            assert(s[s.len() - 1].0 == w);
        }
        assert forall|i: int| 0 <= i < s.len() implies w <= #[trigger] s[i].0 by {
            if i < s.len() - 1 {
                assert(s[i] == s.drop_last()[i]);
            }
        }
    }
}

/// The control flow once the due callbacks were run, given the earliest instant of those
/// left: wait until that instant, or wait for the next event when none is left.
pub open spec fn control_flow_after_dispatch(wake_up_at: Option<u64>) -> ControlFlow {
    match wake_up_at {
        Some(when) => ControlFlow::WaitUntil(when),
        None => ControlFlow::Wait,
    }
}

/// The due callbacks of `s` and those left, from position `i` on, as the dispatch loop finds
/// them: a due callback at position `i` is taken out and the last entry takes its place (it is
/// looked at next), and a callback that is not due is left in place and the loop moves on.
pub open spec fn dispatch_from<T>(s: Seq<(u64, T)>, i: int, now: u64) -> (Seq<(u64, T)>, Seq<
    (u64, T),
>)
    decreases s.len() - i,
{
    if i < 0 || i >= s.len() {
        (Seq::empty(), s)
    } else if s[i].0 <= now {
        let rest = dispatch_from(s.update(i, s.last()).drop_last(), i, now);
        (seq![s[i]] + rest.0, rest.1)
    } else {
        dispatch_from(s, i + 1, now)
    }
}

/// The list of functions that need to be called at a specific instant.
pub struct TimedCallbacks<T> {
    callbacks: Vec<(u64, T)>,
}

impl<T> TimedCallbacks<T> {
    /// The pending callbacks with their instants.
    pub closed spec fn entries(self) -> Seq<(u64, T)> {
        self.callbacks@
    }

    /// Creates an empty list of callbacks.
    pub fn new() -> (r: Self)
        ensures
            r.entries() == Seq::<(u64, T)>::empty(),
    {
        TimedCallbacks { callbacks: Vec::new() }
    }

    /// The number of pending callbacks.
    pub fn len(&self) -> (r: usize)
        ensures
            r == self.entries().len(),
    {
        self.callbacks.len()
    }

    /// Requests a timed callback to be executed at the specified instant.
    ///
    /// `control_flow` is the current control flow of the event loop; the result is the control
    /// flow it must take so that it wakes up in time (see [`control_flow_after_request`]).
    pub fn request_callback(&mut self, instant: u64, f: T, control_flow: ControlFlow) -> (r:
        ControlFlow)
        ensures
            final(self).entries() == old(self).entries().push((instant, f)),
            r == control_flow_after_request(control_flow, instant),
    {
        self.callbacks.push((instant, f));
        match control_flow {
            ControlFlow::WaitUntil(when) => if when < instant {
                control_flow
            } else {
                ControlFlow::WaitUntil(instant)
            },
            _ => ControlFlow::WaitUntil(instant),
        }
    }

    /// Takes the callbacks that are due at `now` (whose instant is not after `now`), in the
    /// order in which they are to be called, with their instants.
    ///
    /// The result also holds the control flow that the event loop must take to wake up for
    /// the earliest callback left (see [`control_flow_after_dispatch`]).
    pub fn take_due(&mut self, now: u64) -> (r: (Vec<(u64, T)>, ControlFlow))
        ensures
            (r.0@, final(self).entries()) == dispatch_from(old(self).entries(), 0, now),
            old(self).entries().to_multiset() == final(self).entries().to_multiset().add(
                r.0@.to_multiset(),
            ),
            forall|i: int| 0 <= i < r.0@.len() ==> #[trigger] r.0@[i].0 <= now,
            forall|i: int|
                0 <= i < final(self).entries().len() ==> #[trigger] final(self).entries()[i].0
                    > now,
            r.1 == control_flow_after_dispatch(earliest(final(self).entries())),
    {
        let mut due: Vec<(u64, T)> = Vec::new();
        let mut wake_up_at: Option<u64> = None;
        let mut i: usize = 0;
        while i < self.callbacks.len()
            invariant
                i <= self.callbacks@.len(),
                old(self).entries().to_multiset() == self.callbacks@.to_multiset().add(
                    due@.to_multiset(),
                ),
                forall|j: int| 0 <= j < due@.len() ==> #[trigger] due@[j].0 <= now,
                forall|j: int| 0 <= j < i ==> #[trigger] self.callbacks@[j].0 > now,
                wake_up_at == earliest(self.callbacks@.take(i as int)),
                dispatch_from(old(self).entries(), 0, now) == (due@ + dispatch_from(
                    self.callbacks@,
                    i as int,
                    now,
                ).0, dispatch_from(self.callbacks@, i as int, now).1),
            decreases self.callbacks@.len() - i,
        {
            if self.callbacks[i].0 <= now {
                let ghost s = self.callbacks@;
                let entry = self.callbacks.swap_remove(i);
                proof {
                    let u = s.update(i as int, s.last());
                    assert(u.drop_last() =~= u.remove(u.len() - 1));
                    assert(u[u.len() - 1] == s.last());
                    assert(self.callbacks@.to_multiset() =~= s.to_multiset().remove(s[i as int]));
                    assert(self.callbacks@.take(i as int) =~= s.take(i as int));
                }
                let ghost before = due@;
                due.push(entry);
                proof {
                    let rest = dispatch_from(self.callbacks@, i as int, now);
                    assert(before + (seq![s[i as int]] + rest.0) =~= due@ + rest.0);
                }
            } else {
                let t = self.callbacks[i].0;
                proof {
                    assert(self.callbacks@.take(i + 1).drop_last() =~= self.callbacks@.take(
                        i as int,
                    ));
                }
                wake_up_at = match wake_up_at {
                    Some(when) => if when < t {
                        Some(when)
                    } else {
                        Some(t)
                    },
                    None => Some(t),
                };
                i += 1;
            }
        }
        proof {
            assert(self.callbacks@.take(i as int) =~= self.callbacks@);
            assert(due@ + Seq::<(u64, T)>::empty() =~= due@);
        }
        let control_flow = match wake_up_at {
            Some(when) => ControlFlow::WaitUntil(when),
            None => ControlFlow::Wait,
        };
        (due, control_flow)
    }
}

/// After a callback is requested at `instant`, the event loop waits until that instant or an
/// earlier one.
pub proof fn lemma_request_wakes_in_time(current: ControlFlow, instant: u64)
    ensures
        control_flow_after_request(current, instant) matches ControlFlow::WaitUntil(w) && w
            <= instant,
{
}

/// After the due callbacks are taken, the event loop waits for the earliest callback left: it
/// wakes up at the instant of one of them, no later than any of them, and waits for events only
/// when none is left.
pub proof fn lemma_dispatch_wakes_for_earliest<T>(left: Seq<(u64, T)>)
    ensures
        control_flow_after_dispatch(earliest(left)) == ControlFlow::Wait <==> left.len() == 0,
        control_flow_after_dispatch(earliest(left)) matches ControlFlow::WaitUntil(w) ==> (
        exists|i: int| 0 <= i < left.len() && left[i].0 == w) && (forall|i: int|
            0 <= i < left.len() ==> w <= #[trigger] left[i].0),
{
    lemma_earliest(left);
}

} // verus!
