//! Event results of the layout-based element tree.
use vstd::prelude::*;

verus! {

/// The result of handling an event.
#[derive(Clone, Copy, Debug, PartialEq, Eq, Hash, Structural)]
pub enum EventResult {
    /// Indicates that the event should stop propagating down the element tree.
    StopPropagation,
    /// The event was not handled, or at least, propagation should continue.
    Continue,
}

impl EventResult {
    /// Returns whether the result indicates that the event should stop propagating further
    /// down the element tree.
    pub fn should_stop_propagation(self) -> (r: bool)
        ensures
            r == (self is StopPropagation),
    {
        match self {
            EventResult::StopPropagation => true,
            EventResult::Continue => false,
        }
    }

    /// Returns whether the result says that propagation should continue.
    pub fn should_continue(self) -> (r: bool)
        ensures
            r == (self is Continue),
    {
        match self {
            EventResult::StopPropagation => false,
            EventResult::Continue => true,
        }
    }
}

/// A propagation result either stops or continues the propagation, never both and never
/// neither.
pub proof fn lemma_propagation_is_exclusive(r: EventResult)
    ensures
        (r is StopPropagation) != (r is Continue),
{
}

/// Indicates that a window has been requested to close.
#[derive(Debug, Clone, Copy)]
pub struct CloseRequested;

} // verus!
