//! The lifecycle of the handler that receives the events of the platform's event loop.
use vstd::prelude::*;

verus! {

/// The handler of the platform's events, holding the user's initialization function `I` until
/// the application starts and the application state `S` afterwards.
pub enum EventHandler<I, S> {
    /// The event handler has not been initialized yet.
    ///
    /// The user's initialization function has not been called yet.
    Uninitialized(I),
    /// The event handler is being initialized. The user's initialization function has been
    /// removed from the event handler to be called (and therefore consumed).
    Initializing,
    /// The initialized application state that is stored in the event handler.
    Initialized(S),
}

/// What the handler `h` hands out, and becomes, when the platform allows surfaces to be
/// created: before the application starts, the initialization function is handed out and the
/// handler is initializing; afterwards nothing is handed out and the handler stays as it is.
pub open spec fn surfaces_available<I, S>(h: EventHandler<I, S>) -> (Option<I>, EventHandler<I, S>) {
    match h {
        EventHandler::Uninitialized(f) => (Some(f), EventHandler::Initializing),
        _ => (None, h),
    }
}

impl<I, S> EventHandler<I, S> {
    /// Creates a new event handler in the `Uninitialized` state.
    pub fn new(init_fn: I) -> (r: Self)
        ensures
            r == EventHandler::<I, S>::Uninitialized(init_fn),
    {
        EventHandler::Uninitialized(init_fn)
    }

    /// Takes the user's initialization function out of the event handler, consuming it; the
    /// handler is then initializing.
    pub fn take_user_init_fn(&mut self) -> (r: I)
        requires
            *old(self) is Uninitialized,
        ensures
            *old(self) == EventHandler::<I, S>::Uninitialized(r),
            *final(self) is Initializing,
    {
        let mut taken = EventHandler::Initializing;
        core::mem::swap(self, &mut taken);
        match taken {
            EventHandler::Uninitialized(f) => f,
            _ => vstd::pervasive::unreached(),
        }
    }

    /// The platform allows surfaces to be created. When the application has not started yet,
    /// its initialization begins: the initialization function is taken out and returned, to be
    /// called. Once the application runs, nothing is to be done and the result is `None`.
    pub fn can_create_surfaces(&mut self) -> (r: Option<I>)
        requires
            !(*old(self) is Initializing),
        ensures
            (r, *final(self)) == surfaces_available(*old(self)),
    {
        if let EventHandler::Uninitialized(_) = self {
            Some(self.take_user_init_fn())
        } else {
            None
        }
    }

    /// The initialization is over: the handler holds the application state.
    pub fn finish_initialization(&mut self, state: S)
        ensures
            *final(self) == EventHandler::<I, S>::Initialized(state),
    {
        *self = EventHandler::Initialized(state);
    }
}

/// The initialization function is handed out exactly once: the first time surfaces become
/// available it is handed out, and once the handler holds the application state, surfaces
/// becoming available again hand nothing out and leave the state as it is.
pub proof fn lemma_init_fn_handed_out_once<I, S>(f: I, state: S)
    ensures
        surfaces_available(EventHandler::<I, S>::Uninitialized(f)) == (
            Some(f),
            EventHandler::<I, S>::Initializing,
        ),
        surfaces_available(EventHandler::<I, S>::Initialized(state)) == (
            None::<I>,
            EventHandler::<I, S>::Initialized(state),
        ),
{
}

} // verus!
