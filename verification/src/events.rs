//! Elements that hook functions into the event handling of their child.
use crate::element::EventResult;
use core::marker::PhantomData;
use vstd::prelude::*;

verus! {

/// An element that hooks a function into the event system.
///
/// Every event reaches the function first; the child only sees the events that the function
/// lets propagate.
pub struct HookEvents<F, E> {
    /// The function that will be called when the event is caught.
    pub on_event: F,
    /// The child element.
    pub child: E,
}

impl<F, E> HookEvents<F, E> {
    /// Creates a new `HookEvents` element.
    pub fn new(on_event: F, child: E) -> (r: Self)
        ensures
            r.on_event == on_event,
            r.child == child,
    {
        Self { on_event, child }
    }
}

/// An element that hooks a function into the event system, for the events of type `T` only.
pub struct CatchEvent<T, F, E> {
    /// The type of event that will be caught.
    _marker: PhantomData<T>,
    /// The function that will be called when the event is caught.
    pub on_event: F,
    /// The child element.
    pub child: E,
}

impl<T, F, E> CatchEvent<T, F, E> {
    /// The function of the element.
    pub closed spec fn spec_on_event(self) -> F {
        self.on_event
    }

    /// The child of the element.
    pub closed spec fn spec_child(self) -> E {
        self.child
    }

    /// Creates a new `CatchEvent` element.
    pub fn new(on_event: F, child: E) -> (r: Self)
        ensures
            r.spec_on_event() == on_event,
            r.spec_child() == child,
    {
        Self { _marker: PhantomData, on_event, child }
    }
}

/// Whether an event goes on to the child of a hooking element: an event that the hook did not
/// see (it is not of the type the hook catches) or that the hook let continue reaches the
/// child; an event that the hook stopped does not, and the element answers that the
/// propagation stops.
pub fn event_reaches_child(hook_result: Option<EventResult>) -> (r: bool)
    ensures
        r == match hook_result {
            Some(EventResult::StopPropagation) => false,
            _ => true,
        },
{
    match hook_result {
        Some(EventResult::StopPropagation) => false,
        _ => true,
    }
}

} // verus!
