//! An element that hooks a function into the event system.
use vstd::prelude::*;

verus! {

/// A simple element that hooks into the event system with a function.
///
/// When an event reaches it, the hook function is called first; the child only sees the event
/// when the hook did not handle it.
#[derive(Default, Clone, Debug)]
pub struct HookEvent<F, E> {
    /// The hook function.
    pub on_event: F,
    /// The child element.
    pub child: E,
}

impl<F, E> HookEvent<F, E> {
    /// Creates a new `HookEvent` element.
    pub fn new(on_event: F, child: E) -> (r: Self)
        ensures
            r.on_event == on_event,
            r.child == child,
    {
        Self { on_event, child }
    }

    /// The hook function of this [`HookEvent`].
    pub fn on_event<F2>(self, on_event: F2) -> (r: HookEvent<F2, E>)
        ensures
            r.on_event == on_event,
            r.child == self.child,
    {
        HookEvent { on_event, child: self.child }
    }

    /// The child element of this [`HookEvent`].
    pub fn child<E2>(self, child: E2) -> (r: HookEvent<F, E2>)
        ensures
            r.on_event == self.on_event,
            r.child == child,
    {
        HookEvent { on_event: self.on_event, child }
    }
}

} // verus!
