//! The result of dispatching an event to an element of the toolkit.
use vstd::prelude::*;

verus! {

/// The result of an event.
#[derive(Clone, Copy, Debug, PartialEq, Eq, Structural)]
pub enum EventResult {
    /// The event should continue to be propagated.
    Continue,
    /// The event has been handled and should not be propagated further.
    Handled,
}

impl EventResult {
    /// Whether the event has been handled.
    pub fn is_handled(self) -> (r: bool)
        ensures
            r == (self == EventResult::Handled),
    {
        self == EventResult::Handled
    }
}

} // verus!
