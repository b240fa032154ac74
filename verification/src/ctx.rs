//! The callbacks registered with the application context: their IDs, when they are due, and
//! when the event loop has to wake up for them.
//!
//! Instants are counted in ticks: the library only compares them.
use crate::app_state::{control_flow_after_dispatch, ControlFlow};
use vstd::prelude::*;

verus! {

/// The earlier of an optional instant and an instant.
pub open spec fn earlier(next: Option<u64>, time: u64) -> Option<u64> {
    match next {
        Some(n) => if time < n {
            Some(time)
        } else {
            Some(n)
        },
        None => Some(time),
    }
}

/// The instant at which the next callback of the context is scheduled.
#[derive(Debug, Clone, Copy, Default, PartialEq, Eq, Structural)]
pub struct CallbackClock {
    next_callback_time: Option<u64>,
}

impl CallbackClock {
    /// The instant at which the next callback is scheduled, if any.
    pub closed spec fn spec_next(self) -> Option<u64> {
        self.next_callback_time
    }

    /// A clock with no callback scheduled.
    pub fn new() -> (r: Self)
        ensures
            r.spec_next() is None,
    {
        CallbackClock { next_callback_time: None }
    }

    /// Updates the next callback time with the provided time if it is earlier than the current
    /// value.
    pub fn request_callback_at(&mut self, time: u64)
        ensures
            final(self).spec_next() == earlier(old(self).spec_next(), time),
    {
        match self.next_callback_time {
            Some(next) => {
                if time < next {
                    self.next_callback_time = Some(time);
                }
            },
            None => {
                self.next_callback_time = Some(time);
            },
        }
    }

    /// Returns the next callback time.
    pub fn next_callback_time(&self) -> (r: Option<u64>)
        ensures
            r == self.spec_next(),
    {
        self.next_callback_time
    }

    /// Forgets the next callback time: the callbacks are about to run.
    pub fn reset(&mut self)
        ensures
            final(self).spec_next() is None,
    {
        self.next_callback_time = None;
    }

    /// The control flow the event loop takes before it blocks for new events: it waits until
    /// the next callback time, or for the next event when no callback is scheduled.
    pub fn control_flow(&self) -> (r: ControlFlow)
        ensures
            r == control_flow_after_dispatch(self.spec_next()),
    {
        match self.next_callback_time {
            Some(time) => ControlFlow::WaitUntil(time),
            None => ControlFlow::Wait,
        }
    }
}

/// Requesting a callback never delays the next callback time, and the next callback time is no
/// later than the requested one.
pub proof fn lemma_request_never_delays(next: Option<u64>, time: u64)
    ensures
        earlier(next, time) matches Some(t) && t <= time && (next matches Some(n) ==> t <= n),
{
}

/// Whether every entry of `s` has an ID below `bound`.
pub open spec fn ids_below<T>(s: Seq<(u64, u64, T)>, bound: u64) -> bool {
    forall|i: int| 0 <= i < s.len() ==> #[trigger] s[i].0 < bound
}

/// Whether no two entries of `s` have the same ID.
pub open spec fn distinct_ids<T>(s: Seq<(u64, u64, T)>) -> bool {
    forall|i: int, j: int| 0 <= i < j < s.len() ==> #[trigger] s[i].0 != #[trigger] s[j].0
}

/// The entries of `s` that are not due at `now` (their instant is after `now`), in their order.
pub open spec fn kept_callbacks<T>(s: Seq<(u64, u64, T)>, now: u64) -> Seq<(u64, u64, T)>
    decreases s.len(),
{
    if s.len() == 0 {
        Seq::empty()
    } else if s.last().1 <= now {
        kept_callbacks(s.drop_last(), now)
    } else {
        kept_callbacks(s.drop_last(), now).push(s.last())
    }
}

/// The callbacks of the entries of `s` that are due at `now`, in their order.
pub open spec fn due_callbacks<T>(s: Seq<(u64, u64, T)>, now: u64) -> Seq<T>
    decreases s.len(),
{
    if s.len() == 0 {
        Seq::empty()
    } else if s.last().1 <= now {
        due_callbacks(s.drop_last(), now).push(s.last().2)
    } else {
        due_callbacks(s.drop_last(), now)
    }
}

/// The earliest instant of the entries of `s` that are not due at `now`, if any.
pub open spec fn next_pending<T>(s: Seq<(u64, u64, T)>, now: u64) -> Option<u64>
    decreases s.len(),
{
    if s.len() == 0 {
        None
    } else if s.last().1 <= now {
        next_pending(s.drop_last(), now)
    } else {
        earlier(next_pending(s.drop_last(), now), s.last().1)
    }
}

/// The next pending instant is the instant of a callback that is not due, and no callback that
/// is not due is scheduled before it; there is none exactly when every callback is due.
pub proof fn lemma_next_pending<T>(s: Seq<(u64, u64, T)>, now: u64)
    ensures
        next_pending(s, now) is None <==> (forall|i: int| 0 <= i < s.len() ==> #[trigger] s[i].1 <= now),
        next_pending(s, now) matches Some(w) ==> w > now && (exists|i: int|
            0 <= i < s.len() && s[i].1 == w) && (forall|i: int|
            0 <= i < s.len() && #[trigger] s[i].1 > now ==> w <= s[i].1),
    decreases s.len(),
{
    if s.len() > 0 {
        let d = s.drop_last();
        lemma_next_pending(d, now);
        assert forall|i: int| 0 <= i < s.len() - 1 implies #[trigger] s[i] == d[i] by {}
        if next_pending(s, now) is Some {
            let w = next_pending(s, now).unwrap();
            if s.last().1 > now && (next_pending(d, now) is None || s.last().1 < next_pending(d, now).unwrap()) {
                assert(s[s.len() - 1].1 == w);
            } else {
                let j = choose|j: int| 0 <= j < d.len() && d[j].1 == w;
                assert(s[j].1 == w);
            }
        }
    }
}

/// The entries kept at `now` are entries of `s` that are not due, every entry of `s` that is
/// not due is kept, and the kept entries have distinct IDs below a bound when the entries of
/// `s` have.
pub proof fn lemma_kept_callbacks<T>(s: Seq<(u64, u64, T)>, now: u64, bound: u64)
    ensures
        ({
            let k = kept_callbacks(s, now);
            &&& forall|i: int| 0 <= i < k.len() ==> #[trigger] k[i].1 > now && s.contains(k[i])
            &&& forall|j: int| 0 <= j < s.len() && #[trigger] s[j].1 > now ==> k.contains(s[j])
            &&& ids_below(s, bound) ==> ids_below(k, bound)
            &&& distinct_ids(s) ==> distinct_ids(k)
        }),
    decreases s.len(),
{
    if s.len() > 0 {
        let d = s.drop_last();
        lemma_kept_callbacks(d, now, bound);
        let kd = kept_callbacks(d, now);
        let k = kept_callbacks(s, now);
        assert forall|i: int| 0 <= i < k.len() implies #[trigger] k[i].1 > now && s.contains(k[i]) by {
            if i < kd.len() {
                assert(k[i] == kd[i]);
                assert(kd[i].1 > now && d.contains(kd[i]));
                let j = choose|j: int| 0 <= j < d.len() && d[j] == kd[i];
                assert(s[j] == d[j]);
            } else {
                assert(s[s.len() - 1] == k[i]);
            }
        }
        assert forall|j: int| 0 <= j < s.len() && #[trigger] s[j].1 > now implies k.contains(s[j]) by {
            if j < s.len() - 1 {
                assert(d[j] == s[j]);
                let w = choose|w: int| 0 <= w < kd.len() && kd[w] == d[j];
                assert(k[w] == kd[w]);
            } else {
                assert(k[k.len() - 1] == s.last());
            }
        }
        if ids_below(s, bound) {
            assert forall|j: int| 0 <= j < d.len() implies #[trigger] d[j].0 < bound by {
                assert(d[j] == s[j]);
            }
            assert forall|i: int| 0 <= i < k.len() implies #[trigger] k[i].0 < bound by {
                assert(k[i].1 > now);
                assert(s.contains(k[i]));
                let j = choose|j: int| 0 <= j < s.len() && s[j] == k[i];
                assert(s[j].0 < bound);
            }
        }
        if distinct_ids(s) {
            assert forall|a: int, b: int| 0 <= a < b < d.len() implies #[trigger] d[a].0
                != #[trigger] d[b].0 by {
                assert(d[a] == s[a] && d[b] == s[b]);
            }
            assert forall|a: int, b: int| 0 <= a < b < k.len() implies #[trigger] k[a].0
                != #[trigger] k[b].0 by {
                if b < kd.len() {
                    assert(k[a] == kd[a] && k[b] == kd[b]);
                } else {
                    assert(k[a] == kd[a]);
                    assert(kd[a].1 > now);
                    assert(d.contains(kd[a]));
                    let j = choose|j: int| 0 <= j < d.len() && d[j] == kd[a];
                    assert(s[j] == d[j]);
                    assert(s[s.len() - 1] == k[b]);
                }
            }
        }
    }
}

/// A callback that was due is gone once the due callbacks are taken: cancelling it afterwards
/// finds nothing, since no callback kept has its ID.
pub proof fn lemma_called_callbacks_are_gone<T>(s: Seq<(u64, u64, T)>, now: u64, k: int)
    requires
        distinct_ids(s),
        0 <= k < s.len(),
        s[k].1 <= now,
    ensures
        forall|i: int|
            0 <= i < kept_callbacks(s, now).len() ==> #[trigger] kept_callbacks(s, now)[i].0 != s[k].0,
{
    lemma_kept_callbacks(s, now, 0);
    let kept = kept_callbacks(s, now);
    assert forall|i: int| 0 <= i < kept.len() implies #[trigger] kept[i].0 != s[k].0 by {
        assert(kept[i].1 > now);
        assert(s.contains(kept[i]));
        let j = choose|j: int| 0 <= j < s.len() && s[j] == kept[i];
        assert(j != k);
        if j < k {
            assert(s[j].0 != s[k].0);
        } else {
            assert(s[k].0 != s[j].0);
        }
    }
}

/// The callbacks registered with the application context: each has an ID, given in increasing
/// order, and the instant at which it is due; the clock tells when the next one is scheduled.
pub struct CallbackRegistry<T> {
    entries: Vec<(u64, u64, T)>,
    next_id: u64,
    clock: CallbackClock,
}

impl<T> CallbackRegistry<T> {
    /// The pending callbacks: their IDs, instants and callbacks, in the order they were
    /// registered.
    pub closed spec fn entries(self) -> Seq<(u64, u64, T)> {
        self.entries@
    }

    /// The ID that the next registered callback receives.
    pub closed spec fn spec_next_id(self) -> u64 {
        self.next_id
    }

    /// The instant at which the next callback is scheduled, as the clock of the registry knows
    /// it.
    pub closed spec fn spec_next(self) -> Option<u64> {
        self.clock.spec_next()
    }

    /// The IDs of the pending callbacks are distinct and were all given out.
    #[verifier::type_invariant]
    closed spec fn wf(self) -> bool {
        &&& ids_below(self.entries(), self.spec_next_id())
        &&& distinct_ids(self.entries())
    }

    /// Creates a registry with no callback.
    pub fn new() -> (r: Self)
        ensures
            r.entries() == Seq::<(u64, u64, T)>::empty(),
            r.spec_next_id() == 0,
            r.spec_next() is None,
    {
        CallbackRegistry { entries: Vec::new(), next_id: 0, clock: CallbackClock::new() }
    }

    /// Whether another callback can be given an ID.
    pub fn can_register(&self) -> (r: bool)
        ensures
            r == (self.spec_next_id() < u64::MAX),
    {
        self.next_id < u64::MAX
    }

    /// The number of pending callbacks.
    pub fn len(&self) -> (r: usize)
        ensures
            r == self.entries().len(),
    {
        self.entries.len()
    }

    /// Registers a callback to be called at `time` (or later), and returns its ID; the next
    /// callback time becomes `time` when that is earlier.
    pub fn register(&mut self, time: u64, callback: T) -> (r: u64)
        requires
            old(self).spec_next_id() < u64::MAX,
        ensures
            r == old(self).spec_next_id(),
            forall|i: int| 0 <= i < old(self).entries().len() ==> #[trigger] old(self).entries()[i].0 != r,
            final(self).entries() == old(self).entries().push((r, time, callback)),
            final(self).spec_next_id() == r + 1,
            final(self).spec_next() == earlier(old(self).spec_next(), time),
    {
        proof {
            use_type_invariant(&*self);
        }
        let mut this = Self::new();
        core::mem::swap(self, &mut this);
        let CallbackRegistry { mut entries, next_id, mut clock } = this;
        let id = next_id;
        clock.request_callback_at(time);
        entries.push((id, time, callback));
        proof {
            let e = entries@;
            assert forall|i: int| 0 <= i < e.len() implies #[trigger] e[i].0 < id + 1 by {
                if i < e.len() - 1 {
                    assert(e[i] == old(self).entries@[i]);
                }
            }
            assert forall|a: int, b: int| 0 <= a < b < e.len() implies #[trigger] e[a].0
                != #[trigger] e[b].0 by {
                assert(e[a] == old(self).entries@[a]);
                if b < e.len() - 1 {
                    assert(e[b] == old(self).entries@[b]);
                }
            }
        }
        *self = CallbackRegistry { entries, next_id: id + 1, clock };
        id
    }

    /// Cancels the callback of ID `id`, and returns whether it was pending (it is not when it
    /// was already cancelled or called).
    pub fn cancel(&mut self, id: u64) -> (r: bool)
        ensures
            r == (exists|k: int| 0 <= k < old(self).entries().len() && old(self).entries()[k].0 == id),
            r ==> exists|k: int|
                0 <= k < old(self).entries().len() && old(self).entries()[k].0 == id
                    && final(self).entries() == old(self).entries().remove(k),
            !r ==> final(self).entries() == old(self).entries(),
            forall|i: int| 0 <= i < final(self).entries().len() ==> #[trigger] final(self).entries()[i].0 != id,
            final(self).spec_next_id() == old(self).spec_next_id(),
            final(self).spec_next() == old(self).spec_next(),
    {
        proof {
            use_type_invariant(&*self);
        }
        let mut this = Self::new();
        core::mem::swap(self, &mut this);
        let CallbackRegistry { mut entries, next_id, clock } = this;
        let mut k: usize = 0;
        while k < entries.len()
            invariant
                entries@ == old(self).entries@,
                next_id == old(self).next_id,
                clock == old(self).clock,
                old(self).wf(),
                k <= entries@.len(),
                forall|i: int| 0 <= i < k ==> #[trigger] entries@[i].0 != id,
            decreases entries@.len() - k,
        {
            if entries[k].0 == id {
                let ghost before = entries@;
                let _ = entries.remove(k);
                proof {
                    let e = entries@;
                    assert forall|i: int| 0 <= i < e.len() implies #[trigger] e[i].0 < next_id by {
                        if i < k {
                            assert(e[i] == before[i]);
                        } else {
                            assert(e[i] == before[i + 1]);
                        }
                    }
                    assert forall|a: int, b: int| 0 <= a < b < e.len() implies #[trigger] e[a].0
                        != #[trigger] e[b].0 by {
                        let a2 = if a < k { a } else { a + 1 };
                        let b2 = if b < k { b } else { b + 1 };
                        assert(e[a] == before[a2] && e[b] == before[b2]);
                    }
                    assert forall|i: int| 0 <= i < e.len() implies #[trigger] e[i].0 != id by {
                        if i < k {
                            assert(e[i] == before[i]);
                        } else {
                            assert(e[i] == before[i + 1]);
                            assert(before[i + 1].0 != before[k as int].0);
                        }
                    }
                }
                *self = CallbackRegistry { entries, next_id, clock };
                return true;
            }
            k += 1;
        }
        *self = CallbackRegistry { entries, next_id, clock };
        false
    }

    /// The instant at which the next callback is scheduled.
    pub fn next_callback_time(&self) -> (r: Option<u64>)
        ensures
            r == self.spec_next(),
    {
        self.clock.next_callback_time()
    }

    /// The control flow the event loop takes before it blocks for new events: it waits until
    /// the next callback time, or for the next event when no callback is scheduled.
    pub fn control_flow(&self) -> (r: ControlFlow)
        ensures
            r == control_flow_after_dispatch(self.spec_next()),
    {
        self.clock.control_flow()
    }

    /// Takes out the callbacks due at `now` (their instant is not after `now`), in the order
    /// they were registered, to be called; the others stay in their order, and the next
    /// callback time becomes the earliest instant among them.
    ///
    /// A callback that the taken callbacks register while they run moves the next callback
    /// time through [`CallbackRegistry::register`].
    pub fn take_due(&mut self, now: u64) -> (r: Vec<T>)
        ensures
            r@ == due_callbacks(old(self).entries(), now),
            final(self).entries() == kept_callbacks(old(self).entries(), now),
            final(self).spec_next() == next_pending(old(self).entries(), now),
            final(self).spec_next_id() == old(self).spec_next_id(),
            forall|k: int, i: int|
                0 <= k < old(self).entries().len() && old(self).entries()[k].1 <= now && 0 <= i
                    < final(self).entries().len() ==> #[trigger] final(self).entries()[i].0
                    != #[trigger] old(self).entries()[k].0,
    {
        proof {
            use_type_invariant(&*self);
        }
        let ghost given = self.entries@;
        let mut this = Self::new();
        core::mem::swap(self, &mut this);
        let CallbackRegistry { entries: mut rest, next_id, clock: _ } = this;
        let mut reversed: Vec<(u64, u64, T)> = Vec::new();
        while rest.len() > 0
            invariant
                rest@ + reversed@.reverse() == given,
            decreases rest@.len(),
        {
            let e = rest.pop().unwrap();
            proof {
                assert(reversed@.push(e).reverse() =~= seq![e] + reversed@.reverse());
            }
            reversed.push(e);
            proof {
                assert(rest@ + reversed@.reverse() =~= given);
            }
        }
        assert(reversed@.reverse() =~= given);
        assert(given.take(0) =~= Seq::<(u64, u64, T)>::empty());
        let mut kept: Vec<(u64, u64, T)> = Vec::new();
        let mut due: Vec<T> = Vec::new();
        let mut next: Option<u64> = None;
        while reversed.len() > 0
            invariant
                reversed@.len() <= given.len(),
                reversed@.reverse() == given.skip(given.len() - reversed@.len()),
                kept@ == kept_callbacks(given.take(given.len() - reversed@.len()), now),
                due@ == due_callbacks(given.take(given.len() - reversed@.len()), now),
                next == next_pending(given.take(given.len() - reversed@.len()), now),
            decreases reversed@.len(),
        {
            let ghost n = given.len() - reversed@.len();
            let ghost before = reversed@;
            let e = reversed.pop().unwrap();
            proof {
                assert(before =~= reversed@.push(e));
                assert(before.reverse() =~= seq![e] + reversed@.reverse());
                assert(given.skip(n)[0] == e) by {
                    assert(given.skip(n) =~= seq![e] + reversed@.reverse());
                }
                assert(given.take(n + 1).drop_last() =~= given.take(n));
                assert(given.take(n + 1).last() == e);
                assert(reversed@.reverse() =~= given.skip(n + 1)) by {
                    assert(given.skip(n) =~= seq![e] + reversed@.reverse());
                    assert(given.skip(n + 1) =~= given.skip(n).drop_first());
                    assert((seq![e] + reversed@.reverse()).drop_first() =~= reversed@.reverse());
                }
            }
            let (id, time, callback) = e;
            if time <= now {
                due.push(callback);
            } else {
                next = match next {
                    Some(t) => if time < t {
                        Some(time)
                    } else {
                        Some(t)
                    },
                    None => Some(time),
                };
                kept.push((id, time, callback));
            }
        }
        assert(given.take(given.len() as int) =~= given);
        proof {
            lemma_kept_callbacks(given, now, next_id);
            assert forall|k: int, i: int|
                0 <= k < given.len() && given[k].1 <= now && 0 <= i < kept@.len()
                    implies #[trigger] kept@[i].0 != #[trigger] given[k].0 by {
                lemma_called_callbacks_are_gone(given, now, k);
            }
        }
        let mut clock = CallbackClock::new();
        match next {
            Some(t) => clock.request_callback_at(t),
            None => {},
        }
        *self = CallbackRegistry { entries: kept, next_id, clock };
        due
    }
}

} // verus!
