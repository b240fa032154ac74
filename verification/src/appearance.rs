//! The appearance of an input element, controlled by a function of its interaction state.
use vstd::prelude::*;

verus! {

/// An appearance that uses a function to follow the state of the input element it belongs to.
///
/// Instances of this type are created through [`make_appearance`].
pub struct AppearanceFn<F, E> {
    /// The function itself.
    pub state_changed: F,
    /// The child element.
    pub child: E,
}

/// Creates a new [`AppearanceFn`] from the provided element and function.
pub fn make_appearance<F, E>(elem: E, state_changed: F) -> (r: AppearanceFn<F, E>)
    ensures
        r.state_changed == state_changed,
        r.child == elem,
{
    AppearanceFn { state_changed, child: elem }
}

} // verus!
