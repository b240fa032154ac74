//! Shorthands that create the basic elements of the toolkit.
use crate::button::Button;
use crate::hooks::HookEvent;
use vstd::prelude::*;

verus! {

/// Creates a new [`Button`] element, without appearance.
pub fn button() -> (r: Button<()>)
    ensures
        r.spec_state().spec_bits() == 0,
        !r.spec_act_on_press(),
{
    Button::new(())
}

/// Creates a new [`HookEvent`] element, without hook and without child.
pub fn hook_events() -> (r: HookEvent<(), ()>)
    ensures
        r == (HookEvent::<(), ()> { on_event: (), child: () }),
{
    HookEvent::new((), ())
}

} // verus!
