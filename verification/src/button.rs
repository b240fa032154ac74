//! A button: an element that acts when it is pressed or clicked.
use crate::event::EventResult;
use crate::interactive::{has_flags, pointer_transition, InteractionEvent, InteractiveState};
use vstd::prelude::*;

verus! {

/// Represents a button.
#[derive(Clone, Debug, Default)]
pub struct Button<A> {
    state: InteractiveState,
    /// Whether to act on press.
    ///
    /// Otherwise, the button will act on release.
    pub act_on_press: bool,
    /// The appearance of the button.
    pub appearance: A,
}

/// Whether a button acts after its interaction flags became `bits`: when the button acts on
/// press, it acts as it is just pressed; otherwise it acts as it is just clicked.
pub open spec fn button_acts(act_on_press: bool, bits: u16) -> bool {
    if act_on_press {
        has_flags(bits, InteractiveState::JUST_PRESSED)
    } else {
        has_flags(bits, InteractiveState::JUST_CLICKED)
    }
}

/// The interaction flags and the result that a button with the flags `bits` reaches by
/// handling `event`: the transient flags are cleared, the pointer rules are applied, and when
/// the button acts its value changes and the event is handled.
pub open spec fn button_transition(
    bits: u16,
    act_on_press: bool,
    event: InteractionEvent,
    hit: bool,
) -> (u16, EventResult) {
    let (after, result) = pointer_transition(bits & !InteractiveState::TRANSIENT, event, hit);
    if button_acts(act_on_press, after) {
        (after | InteractiveState::VALUE_CHANGED, EventResult::Handled)
    } else {
        (after, result)
    }
}

impl<A> Button<A> {
    /// The interaction state of the button.
    pub closed spec fn spec_state(self) -> InteractiveState {
        self.state
    }

    /// Whether the button acts on press.
    pub closed spec fn spec_act_on_press(self) -> bool {
        self.act_on_press
    }

    /// The appearance of the button.
    pub closed spec fn spec_appearance(self) -> A {
        self.appearance
    }

    /// Creates a new [`Button`] with the provided appearance.
    pub fn new(appearance: A) -> (r: Self)
        ensures
            r.spec_state().spec_bits() == 0,
            !r.spec_act_on_press(),
            r.spec_appearance() == appearance,
    {
        Self { act_on_press: false, state: InteractiveState::empty(), appearance }
    }

    /// Sets whether the button is disabled or not.
    pub fn disabled(self, yes: bool) -> (r: Self)
        ensures
            r.spec_state().spec_bits() == (if yes {
                self.spec_state().spec_bits() | InteractiveState::DISABLED
            } else {
                self.spec_state().spec_bits() & !InteractiveState::DISABLED
            }),
            r.spec_act_on_press() == self.spec_act_on_press(),
            r.spec_appearance() == self.spec_appearance(),
    {
        let mut s = self;
        s.state.set(InteractiveState::DISABLED, yes);
        s
    }

    /// Sets the appearance of the button.
    pub fn child<A2>(self, appearance: A2) -> (r: Button<A2>)
        ensures
            r.spec_state() == self.spec_state(),
            r.spec_act_on_press() == self.spec_act_on_press(),
            r.spec_appearance() == appearance,
    {
        Button { act_on_press: self.act_on_press, state: self.state, appearance }
    }

    /// Whether to act on press.
    pub fn act_on_press(self, yes: bool) -> (r: Self)
        ensures
            r.spec_state() == self.spec_state(),
            r.spec_act_on_press() == yes,
            r.spec_appearance() == self.spec_appearance(),
    {
        let mut s = self;
        s.act_on_press = yes;
        s
    }

    /// The interaction state of the button.
    pub fn state(&self) -> (r: InteractiveState)
        ensures
            r == self.spec_state(),
    {
        self.state
    }

    /// Handles an event: updates the interaction state and decides whether the button acts.
    ///
    /// `hit` is the answer of the appearance's hit test at the event's position. The result is
    /// the event result and whether the interaction state changed. When the event result is
    /// [`EventResult::Continue`], the event goes on to the appearance, whose answer is the
    /// button's. The state counts as changed when it differs from the state once the transient
    /// flags of the previous event were cleared; the appearance is then told of the new state.
    pub fn handle_event(&mut self, event: InteractionEvent, hit: bool) -> (r: (EventResult, bool))
        ensures
            (final(self).spec_state().spec_bits(), r.0) == button_transition(
                old(self).spec_state().spec_bits(),
                old(self).spec_act_on_press(),
                event,
                hit,
            ),
            r.1 == (final(self).spec_state().spec_bits() != (old(self).spec_state().spec_bits()
                & !InteractiveState::TRANSIENT)),
            final(self).spec_act_on_press() == old(self).spec_act_on_press(),
            final(self).spec_appearance() == old(self).spec_appearance(),
    {
        self.state.remove_transient_states();
        let og_state = self.state;
        let og_bits = og_state.bits();
        let mut event_result = self.state.handle_pointer_interactions(event, hit);
        if (self.act_on_press && self.state.just_pressed()) || (!self.act_on_press
            && self.state.just_clicked()) {
            self.state.insert(InteractiveState::VALUE_CHANGED);
            event_result = EventResult::Handled;
        }
        let changed = og_bits != self.state.bits();
        (event_result, changed)
    }
}

/// The bit facts behind the laws of buttons: once the transient flags are cleared, only a press
/// over the element sets `JUST_PRESSED`, only a click sets `JUST_CLICKED`, and the pointer
/// rules never set `VALUE_CHANGED`.
proof fn lemma_button_bits(b: u16)
    by (bit_vector)
    ensures
        !has_flags((b & !InteractiveState::TRANSIENT), InteractiveState::VALUE_CHANGED),
        !has_flags((b & !InteractiveState::TRANSIENT), InteractiveState::JUST_PRESSED),
        !has_flags((b & !InteractiveState::TRANSIENT), InteractiveState::JUST_CLICKED),
        !has_flags(((b & !InteractiveState::TRANSIENT) | (InteractiveState::HOVER | InteractiveState::JUST_ENTERED)), InteractiveState::VALUE_CHANGED),
        !has_flags(((b & !InteractiveState::TRANSIENT) | (InteractiveState::HOVER | InteractiveState::JUST_ENTERED)), InteractiveState::JUST_PRESSED),
        !has_flags(((b & !InteractiveState::TRANSIENT) | (InteractiveState::HOVER | InteractiveState::JUST_ENTERED)), InteractiveState::JUST_CLICKED),
        !has_flags((((b & !InteractiveState::TRANSIENT) & !InteractiveState::HOVER) | InteractiveState::JUST_LEFT), InteractiveState::VALUE_CHANGED),
        !has_flags((((b & !InteractiveState::TRANSIENT) & !InteractiveState::HOVER) | InteractiveState::JUST_LEFT), InteractiveState::JUST_PRESSED),
        !has_flags((((b & !InteractiveState::TRANSIENT) & !InteractiveState::HOVER) | InteractiveState::JUST_LEFT), InteractiveState::JUST_CLICKED),
        !has_flags(((b & !InteractiveState::TRANSIENT) | InteractiveState::HOVER), InteractiveState::VALUE_CHANGED),
        !has_flags(((b & !InteractiveState::TRANSIENT) | InteractiveState::HOVER), InteractiveState::JUST_PRESSED),
        !has_flags(((b & !InteractiveState::TRANSIENT) | InteractiveState::HOVER), InteractiveState::JUST_CLICKED),
        !has_flags(((b & !InteractiveState::TRANSIENT) & !InteractiveState::HOVER), InteractiveState::VALUE_CHANGED),
        !has_flags(((b & !InteractiveState::TRANSIENT) & !InteractiveState::HOVER), InteractiveState::JUST_PRESSED),
        !has_flags(((b & !InteractiveState::TRANSIENT) & !InteractiveState::HOVER), InteractiveState::JUST_CLICKED),
        !has_flags((((b & !InteractiveState::TRANSIENT) | InteractiveState::HOVER) | (InteractiveState::ACTIVE | InteractiveState::FOCUS | InteractiveState::JUST_FOCUSED | InteractiveState::JUST_PRESSED)), InteractiveState::VALUE_CHANGED),
        has_flags((((b & !InteractiveState::TRANSIENT) | InteractiveState::HOVER) | (InteractiveState::ACTIVE | InteractiveState::FOCUS | InteractiveState::JUST_FOCUSED | InteractiveState::JUST_PRESSED)), InteractiveState::JUST_PRESSED),
        !has_flags((((b & !InteractiveState::TRANSIENT) | InteractiveState::HOVER) | (InteractiveState::ACTIVE | InteractiveState::FOCUS | InteractiveState::JUST_FOCUSED | InteractiveState::JUST_PRESSED)), InteractiveState::JUST_CLICKED),
        !has_flags(((((b & !InteractiveState::TRANSIENT) & !InteractiveState::HOVER) & !InteractiveState::FOCUS) | InteractiveState::JUST_UNFOCUSED), InteractiveState::VALUE_CHANGED),
        !has_flags(((((b & !InteractiveState::TRANSIENT) & !InteractiveState::HOVER) & !InteractiveState::FOCUS) | InteractiveState::JUST_UNFOCUSED), InteractiveState::JUST_PRESSED),
        !has_flags(((((b & !InteractiveState::TRANSIENT) & !InteractiveState::HOVER) & !InteractiveState::FOCUS) | InteractiveState::JUST_UNFOCUSED), InteractiveState::JUST_CLICKED),
        !has_flags(((((b & !InteractiveState::TRANSIENT) | InteractiveState::HOVER) & !InteractiveState::ACTIVE) | (InteractiveState::JUST_RELEASED | InteractiveState::JUST_CLICKED)), InteractiveState::VALUE_CHANGED),
        !has_flags(((((b & !InteractiveState::TRANSIENT) | InteractiveState::HOVER) & !InteractiveState::ACTIVE) | (InteractiveState::JUST_RELEASED | InteractiveState::JUST_CLICKED)), InteractiveState::JUST_PRESSED),
        has_flags(((((b & !InteractiveState::TRANSIENT) | InteractiveState::HOVER) & !InteractiveState::ACTIVE) | (InteractiveState::JUST_RELEASED | InteractiveState::JUST_CLICKED)), InteractiveState::JUST_CLICKED),
        !has_flags(((((b & !InteractiveState::TRANSIENT) & !InteractiveState::HOVER) & !InteractiveState::ACTIVE) | InteractiveState::JUST_RELEASED), InteractiveState::VALUE_CHANGED),
        !has_flags(((((b & !InteractiveState::TRANSIENT) & !InteractiveState::HOVER) & !InteractiveState::ACTIVE) | InteractiveState::JUST_RELEASED), InteractiveState::JUST_PRESSED),
        !has_flags(((((b & !InteractiveState::TRANSIENT) & !InteractiveState::HOVER) & !InteractiveState::ACTIVE) | InteractiveState::JUST_RELEASED), InteractiveState::JUST_CLICKED),
        has_flags(((b & !InteractiveState::TRANSIENT) | InteractiveState::HOVER), InteractiveState::ACTIVE) == has_flags(b, InteractiveState::ACTIVE),
        has_flags(((b & !InteractiveState::TRANSIENT) & !InteractiveState::HOVER), InteractiveState::ACTIVE) == has_flags(b, InteractiveState::ACTIVE),
{
}

/// A button's value changes exactly when the button acts.
pub proof fn lemma_value_changed_iff_acts(
    bits: u16,
    act_on_press: bool,
    event: InteractionEvent,
    hit: bool,
)
    ensures
        has_flags(button_transition(bits, act_on_press, event, hit).0, InteractiveState::VALUE_CHANGED)
            == button_acts(
            act_on_press,
            pointer_transition(bits & !InteractiveState::TRANSIENT, event, hit).0,
        ),
{
    lemma_button_bits(bits);
    crate::interactive::lemma_value_changed_set(pointer_transition(bits & !InteractiveState::TRANSIENT, event, hit).0);
}

/// A button that acts on press acts exactly when the primary left button is pressed over it;
/// a button that acts on release acts exactly when the primary left button is released over it
/// while the button is active. Whenever a button acts, the event is handled.
pub proof fn lemma_when_button_acts(bits: u16, event: InteractionEvent, hit: bool)
    ensures
        button_acts(true, pointer_transition(bits & !InteractiveState::TRANSIENT, event, hit).0)
            == (event == InteractionEvent::PointerButton {
            primary: true,
            left_mouse: true,
            pressed: true,
        } && hit),
        button_acts(false, pointer_transition(bits & !InteractiveState::TRANSIENT, event, hit).0)
            == (event == InteractionEvent::PointerButton {
            primary: true,
            left_mouse: true,
            pressed: false,
        } && hit && has_flags(bits, InteractiveState::ACTIVE)),
        button_acts(true, pointer_transition(bits & !InteractiveState::TRANSIENT, event, hit).0)
            ==> button_transition(bits, true, event, hit).1 == EventResult::Handled,
        button_acts(false, pointer_transition(bits & !InteractiveState::TRANSIENT, event, hit).0)
            ==> button_transition(bits, false, event, hit).1 == EventResult::Handled,
{
    lemma_button_bits(bits);
    lemma_active_survives_transient(bits);
}

/// Clearing the transient flags keeps the `ACTIVE` flag.
proof fn lemma_active_survives_transient(b: u16)
    by (bit_vector)
    ensures
        has_flags(b & !InteractiveState::TRANSIENT, InteractiveState::ACTIVE) == has_flags(
            b,
            InteractiveState::ACTIVE,
        ),
{
}

} // verus!
