//! The interaction state shared by the input elements (buttons, text inputs), and the rules
//! by which pointer events change it.
use crate::event::EventResult;
use vstd::prelude::*;

verus! {

/// Represents the state of an element capable of reacting to a user's inputs.
///
/// This is a set of flags stored as the bits of a `u16`.
#[derive(Default, Clone, Copy, PartialEq, Eq, Debug, Structural)]
pub struct InteractiveState {
    bits: u16,
}

/// Whether every bit of `mask` is set in `bits`.
pub open spec fn has_flags(bits: u16, mask: u16) -> bool {
    bits & mask == mask
}

impl InteractiveState {
    /// The flags of this state, as bits.
    pub closed spec fn spec_bits(self) -> u16 {
        self.bits
    }

    /// Whether the flag (or all of the flags) of `mask` are set.
    pub open spec fn has_flags(self, mask: u16) -> bool {
        has_flags(self.spec_bits(), mask)
    }

    /// The flags that only describe what happened during the last event: all the `JUST_*`
    /// flags and `VALUE_CHANGED`.
    pub const TRANSIENT: u16 = 0x3fc0;
    /// The pointer is over the element.
    pub const HOVER: u16 = 0x1;
    /// The pointer is pressing the element.
    pub const ACTIVE: u16 = 0x2;
    /// The element is disabled.
    pub const DISABLED: u16 = 0x4;
    /// The element is focused.
    pub const FOCUS: u16 = 0x8;
    /// The element is visibly focused.
    pub const FOCUS_VISIBLE: u16 = 0x10;
    /// The element was just pressed.
    ///
    /// When "act on press" is enabled, this is the moment where a button acts.
    pub const JUST_PRESSED: u16 = 0x40;
    /// The element was just released.
    pub const JUST_RELEASED: u16 = 0x80;
    /// The element was clicked.
    ///
    /// When "act on release" is enabled, this is the moment where a button acts.
    pub const JUST_CLICKED: u16 = 0x100;
    /// The pointer entered the element.
    pub const JUST_ENTERED: u16 = 0x200;
    /// The pointer left the element.
    pub const JUST_LEFT: u16 = 0x400;
    /// The element was just focused.
    pub const JUST_FOCUSED: u16 = 0x800;
    /// The element was just unfocused.
    pub const JUST_UNFOCUSED: u16 = 0x1000;
    /// The value of the element changed.
    pub const VALUE_CHANGED: u16 = 0x2000;

    /// The state with no flag set.
    pub fn empty() -> (r: Self)
        ensures
            r.spec_bits() == 0,
    {
        Self { bits: 0 }
    }

    /// Builds a state from raw bits, keeping every bit.
    pub fn from_bits_retain(bits: u16) -> (r: Self)
        ensures
            r.spec_bits() == bits,
    {
        Self { bits }
    }

    /// The flags of this state, as bits.
    pub fn bits(self) -> (r: u16)
        ensures
            r == self.spec_bits(),
    {
        self.bits
    }

    /// The flags set in `self` or in `other`.
    pub fn union(self, other: Self) -> (r: Self)
        ensures
            r.spec_bits() == self.spec_bits() | other.spec_bits(),
    {
        Self { bits: self.bits | other.bits }
    }

    /// Whether all the flags of `flags` are set.
    pub fn contains(self, flags: u16) -> (r: bool)
        ensures
            r == self.has_flags(flags),
    {
        self.bits & flags == flags
    }

    /// Sets the flags of `flags`.
    pub fn insert(&mut self, flags: u16)
        ensures
            final(self).spec_bits() == old(self).spec_bits() | flags,
    {
        self.bits = self.bits | flags;
    }

    /// Clears the flags of `flags`.
    pub fn remove(&mut self, flags: u16)
        ensures
            final(self).spec_bits() == old(self).spec_bits() & !flags,
    {
        self.bits = self.bits & !flags;
    }

    /// Sets the flags of `flags` when `value` holds, and clears them otherwise.
    pub fn set(&mut self, flags: u16, value: bool)
        ensures
            final(self).spec_bits() == (if value {
                old(self).spec_bits() | flags
            } else {
                old(self).spec_bits() & !flags
            }),
    {
        if value {
            self.insert(flags);
        } else {
            self.remove(flags);
        }
    }

    /// Removes transient states from the element.
    pub fn remove_transient_states(&mut self)
        ensures
            final(self).spec_bits() == old(self).spec_bits() & !Self::TRANSIENT,
    {
        self.bits = self.bits & !Self::TRANSIENT;
    }

    /// Whether the element is being hovered.
    pub fn hover(self) -> (r: bool)
        ensures
            r == self.has_flags(Self::HOVER),
    {
        self.bits & Self::HOVER == Self::HOVER
    }

    /// Whether the element is active (being pressed).
    pub fn active(self) -> (r: bool)
        ensures
            r == self.has_flags(Self::ACTIVE),
    {
        self.bits & Self::ACTIVE == Self::ACTIVE
    }

    /// Whether the element is disabled.
    pub fn disabled(self) -> (r: bool)
        ensures
            r == self.has_flags(Self::DISABLED),
    {
        self.bits & Self::DISABLED == Self::DISABLED
    }

    /// Whether the element is focused.
    pub fn focused(self) -> (r: bool)
        ensures
            r == self.has_flags(Self::FOCUS),
    {
        self.bits & Self::FOCUS == Self::FOCUS
    }

    /// Whether the element is visibly focused.
    pub fn focus_visible(self) -> (r: bool)
        ensures
            r == self.has_flags(Self::FOCUS_VISIBLE),
    {
        self.bits & Self::FOCUS_VISIBLE == Self::FOCUS_VISIBLE
    }

    /// Whether the element was just pressed.
    pub fn just_pressed(self) -> (r: bool)
        ensures
            r == self.has_flags(Self::JUST_PRESSED),
    {
        self.bits & Self::JUST_PRESSED == Self::JUST_PRESSED
    }

    /// Whether the element was just released.
    pub fn just_released(self) -> (r: bool)
        ensures
            r == self.has_flags(Self::JUST_RELEASED),
    {
        self.bits & Self::JUST_RELEASED == Self::JUST_RELEASED
    }

    /// Whether the element was clicked.
    pub fn just_clicked(self) -> (r: bool)
        ensures
            r == self.has_flags(Self::JUST_CLICKED),
    {
        self.bits & Self::JUST_CLICKED == Self::JUST_CLICKED
    }

    /// Whether the pointer just entered the element.
    pub fn just_entered(self) -> (r: bool)
        ensures
            r == self.has_flags(Self::JUST_ENTERED),
    {
        self.bits & Self::JUST_ENTERED == Self::JUST_ENTERED
    }

    /// Whether the pointer just left the element.
    pub fn just_left(self) -> (r: bool)
        ensures
            r == self.has_flags(Self::JUST_LEFT),
    {
        self.bits & Self::JUST_LEFT == Self::JUST_LEFT
    }

    /// Whether the value of the element changed.
    pub fn value_changed(self) -> (r: bool)
        ensures
            r == self.has_flags(Self::VALUE_CHANGED),
    {
        self.bits & Self::VALUE_CHANGED == Self::VALUE_CHANGED
    }

    /// Whether the element was just focused.
    pub fn just_focused(self) -> (r: bool)
        ensures
            r == self.has_flags(Self::JUST_FOCUSED),
    {
        self.bits & Self::JUST_FOCUSED == Self::JUST_FOCUSED
    }

    /// Whether the element was just unfocused.
    pub fn just_unfocused(self) -> (r: bool)
        ensures
            r == self.has_flags(Self::JUST_UNFOCUSED),
    {
        self.bits & Self::JUST_UNFOCUSED == Self::JUST_UNFOCUSED
    }
}

/// What the interaction state reads of an event.
///
/// Positions are not part of it: the element decides whether the pointer is over it (its hit
/// test) and hands that answer to [`InteractiveState::handle_pointer_interactions`].
#[derive(Clone, Copy, Debug, PartialEq, Eq, Structural)]
pub enum InteractionEvent {
    /// The pointer has moved over the window.
    PointerMoved {
        /// Whether the pointer is the primary pointer.
        primary: bool,
    },
    /// A pointer button has been pressed or released.
    PointerButton {
        /// Whether the pointer is the primary pointer.
        primary: bool,
        /// Whether the button is the left button of a mouse.
        left_mouse: bool,
        /// Whether the button was pressed (otherwise it was released).
        pressed: bool,
    },
    /// The pointer has left the window.
    PointerLeft {
        /// Whether the pointer is the primary pointer.
        primary: bool,
    },
    /// Any other event.
    Other,
}

impl InteractionEvent {
    /// Whether handling this event reads the result of the element's hit test.
    pub open spec fn spec_needs_hit_test(self) -> bool {
        match self {
            InteractionEvent::PointerMoved { primary } => primary,
            InteractionEvent::PointerButton { primary, left_mouse, .. } => primary && left_mouse,
            _ => false,
        }
    }

    /// Whether handling this event reads the result of the element's hit test.
    ///
    /// When this returns `false`, the hit test does not need to be run: the outcome of
    /// [`InteractiveState::handle_pointer_interactions`] is the same for both answers.
    pub fn needs_hit_test(&self) -> (r: bool)
        ensures
            r == self.spec_needs_hit_test(),
    {
        match self {
            InteractionEvent::PointerMoved { primary } => *primary,
            InteractionEvent::PointerButton { primary, left_mouse, .. } => *primary && *left_mouse,
            _ => false,
        }
    }
}

/// The state (as bits) and the result that handling `event` produces from the state `bits`,
/// where `hit` is whether the event's position is over the element.
pub open spec fn pointer_transition(bits: u16, event: InteractionEvent, hit: bool) -> (
    u16,
    EventResult,
) {
    match event {
        InteractionEvent::PointerMoved { primary } => {
            if !primary || has_flags(bits, InteractiveState::HOVER) == hit {
                (bits, EventResult::Continue)
            } else if hit {
                (bits | (InteractiveState::HOVER | InteractiveState::JUST_ENTERED), EventResult::Continue)
            } else {
                ((bits & !InteractiveState::HOVER) | InteractiveState::JUST_LEFT, EventResult::Continue)
            }
        },
        InteractionEvent::PointerButton { primary, left_mouse, pressed } => {
            if !primary || !left_mouse {
                (bits, EventResult::Continue)
            } else {
                let b = if hit {
                    bits | InteractiveState::HOVER
                } else {
                    bits & !InteractiveState::HOVER
                };
                if pressed {
                    if hit {
                        (
                            b | (InteractiveState::ACTIVE | InteractiveState::FOCUS
                                | InteractiveState::JUST_FOCUSED | InteractiveState::JUST_PRESSED),
                            EventResult::Handled,
                        )
                    } else {
                        (
                            (b & !InteractiveState::FOCUS) | InteractiveState::JUST_UNFOCUSED,
                            EventResult::Continue,
                        )
                    }
                } else if has_flags(b, InteractiveState::ACTIVE) {
                    let c = b & !InteractiveState::ACTIVE;
                    if hit {
                        (
                            c | (InteractiveState::JUST_RELEASED | InteractiveState::JUST_CLICKED),
                            EventResult::Handled,
                        )
                    } else {
                        (c | InteractiveState::JUST_RELEASED, EventResult::Continue)
                    }
                } else {
                    (b, EventResult::Continue)
                }
            }
        },
        InteractionEvent::PointerLeft { primary } => {
            if primary && has_flags(bits, InteractiveState::HOVER) {
                ((bits & !InteractiveState::HOVER) | InteractiveState::JUST_LEFT, EventResult::Continue)
            } else {
                (bits, EventResult::Continue)
            }
        },
        InteractionEvent::Other => (bits, EventResult::Continue),
    }
}

impl InteractiveState {
    /// Handles the provided event, updating the state of the element accordingly.
    ///
    /// `hit` is the answer of the element's hit test at the event's position; it is only read
    /// when [`InteractionEvent::needs_hit_test`] holds.
    pub fn handle_pointer_interactions(&mut self, event: InteractionEvent, hit: bool) -> (r:
        EventResult)
        ensures
            (final(self).spec_bits(), r) == pointer_transition(old(self).spec_bits(), event, hit),
    {
        match event {
            InteractionEvent::PointerMoved { primary } => {
                if !primary {
                    return EventResult::Continue;
                }
                let now_hover = hit;
                if self.hover() == now_hover {
                    return EventResult::Continue;
                }
                if now_hover {
                    self.insert(InteractiveState::HOVER | InteractiveState::JUST_ENTERED);
                    EventResult::Continue
                } else {
                    self.remove(InteractiveState::HOVER);
                    self.insert(InteractiveState::JUST_LEFT);
                    EventResult::Continue
                }
            },
            InteractionEvent::PointerButton { primary, left_mouse, pressed } => {
                if !primary {
                    return EventResult::Continue;
                }
                if !left_mouse {
                    return EventResult::Continue;
                }
                let hover = hit;
                self.set(InteractiveState::HOVER, hover);
                if pressed {
                    if hover {
                        self.insert(
                            InteractiveState::ACTIVE | InteractiveState::FOCUS
                                | InteractiveState::JUST_FOCUSED | InteractiveState::JUST_PRESSED,
                        );
                        EventResult::Handled
                    } else {
                        self.remove(InteractiveState::FOCUS);
                        self.insert(InteractiveState::JUST_UNFOCUSED);
                        EventResult::Continue
                    }
                } else if self.active() {
                    self.remove(InteractiveState::ACTIVE);
                    if hover {
                        self.insert(InteractiveState::JUST_RELEASED | InteractiveState::JUST_CLICKED);
                        EventResult::Handled
                    } else {
                        self.insert(InteractiveState::JUST_RELEASED);
                        EventResult::Continue
                    }
                } else {
                    EventResult::Continue
                }
            },
            InteractionEvent::PointerLeft { primary } => {
                if !primary {
                    return EventResult::Continue;
                }
                if self.hover() {
                    self.remove(InteractiveState::HOVER);
                    self.insert(InteractiveState::JUST_LEFT);
                    return EventResult::Continue;
                }
                EventResult::Continue
            },
            InteractionEvent::Other => EventResult::Continue,
        }
    }
}

/// The bit facts behind the laws of the pointer rules, for every state `b`.
proof fn lemma_pointer_bits(b: u16)
    by (bit_vector)
    ensures
        has_flags((b | (InteractiveState::HOVER | InteractiveState::JUST_ENTERED)), InteractiveState::HOVER),
        has_flags((b | (InteractiveState::HOVER | InteractiveState::JUST_ENTERED)), InteractiveState::JUST_ENTERED),
        !has_flags(((b & !InteractiveState::HOVER) | InteractiveState::JUST_LEFT), InteractiveState::HOVER),
        has_flags(((b & !InteractiveState::HOVER) | InteractiveState::JUST_LEFT), InteractiveState::JUST_LEFT),
        has_flags((b | InteractiveState::HOVER), InteractiveState::HOVER),
        !has_flags((b & !InteractiveState::HOVER), InteractiveState::HOVER),
        has_flags((b | InteractiveState::HOVER), InteractiveState::ACTIVE) == has_flags(b, InteractiveState::ACTIVE),
        has_flags((b & !InteractiveState::HOVER), InteractiveState::ACTIVE) == has_flags(b, InteractiveState::ACTIVE),
        has_flags(((b | InteractiveState::HOVER) | (InteractiveState::ACTIVE | InteractiveState::FOCUS | InteractiveState::JUST_FOCUSED | InteractiveState::JUST_PRESSED)), InteractiveState::HOVER),
        has_flags(((b | InteractiveState::HOVER) | (InteractiveState::ACTIVE | InteractiveState::FOCUS | InteractiveState::JUST_FOCUSED | InteractiveState::JUST_PRESSED)), InteractiveState::ACTIVE),
        has_flags(((b | InteractiveState::HOVER) | (InteractiveState::ACTIVE | InteractiveState::FOCUS | InteractiveState::JUST_FOCUSED | InteractiveState::JUST_PRESSED)), InteractiveState::FOCUS),
        has_flags(((b | InteractiveState::HOVER) | (InteractiveState::ACTIVE | InteractiveState::FOCUS | InteractiveState::JUST_FOCUSED | InteractiveState::JUST_PRESSED)), InteractiveState::JUST_PRESSED),
        has_flags(((b | InteractiveState::HOVER) | (InteractiveState::ACTIVE | InteractiveState::FOCUS | InteractiveState::JUST_FOCUSED | InteractiveState::JUST_PRESSED)), InteractiveState::JUST_FOCUSED),
        !has_flags((((b & !InteractiveState::HOVER) & !InteractiveState::FOCUS) | InteractiveState::JUST_UNFOCUSED), InteractiveState::HOVER),
        !has_flags((((b & !InteractiveState::HOVER) & !InteractiveState::FOCUS) | InteractiveState::JUST_UNFOCUSED), InteractiveState::FOCUS),
        has_flags((((b & !InteractiveState::HOVER) & !InteractiveState::FOCUS) | InteractiveState::JUST_UNFOCUSED), InteractiveState::JUST_UNFOCUSED),
        has_flags((((b | InteractiveState::HOVER) & !InteractiveState::ACTIVE) | (InteractiveState::JUST_RELEASED | InteractiveState::JUST_CLICKED)), InteractiveState::HOVER),
        !has_flags((((b | InteractiveState::HOVER) & !InteractiveState::ACTIVE) | (InteractiveState::JUST_RELEASED | InteractiveState::JUST_CLICKED)), InteractiveState::ACTIVE),
        has_flags((((b | InteractiveState::HOVER) & !InteractiveState::ACTIVE) | (InteractiveState::JUST_RELEASED | InteractiveState::JUST_CLICKED)), InteractiveState::JUST_RELEASED),
        has_flags((((b | InteractiveState::HOVER) & !InteractiveState::ACTIVE) | (InteractiveState::JUST_RELEASED | InteractiveState::JUST_CLICKED)), InteractiveState::JUST_CLICKED),
        !has_flags((((b & !InteractiveState::HOVER) & !InteractiveState::ACTIVE) | InteractiveState::JUST_RELEASED), InteractiveState::HOVER),
        !has_flags((((b & !InteractiveState::HOVER) & !InteractiveState::ACTIVE) | InteractiveState::JUST_RELEASED), InteractiveState::ACTIVE),
        has_flags((((b & !InteractiveState::HOVER) & !InteractiveState::ACTIVE) | InteractiveState::JUST_RELEASED), InteractiveState::JUST_RELEASED),
        has_flags((b | (InteractiveState::HOVER | InteractiveState::JUST_ENTERED)), InteractiveState::DISABLED) == has_flags(b, InteractiveState::DISABLED),
        has_flags((b | (InteractiveState::HOVER | InteractiveState::JUST_ENTERED)), InteractiveState::FOCUS_VISIBLE) == has_flags(b, InteractiveState::FOCUS_VISIBLE),
        has_flags(((b & !InteractiveState::HOVER) | InteractiveState::JUST_LEFT), InteractiveState::DISABLED) == has_flags(b, InteractiveState::DISABLED),
        has_flags(((b & !InteractiveState::HOVER) | InteractiveState::JUST_LEFT), InteractiveState::FOCUS_VISIBLE) == has_flags(b, InteractiveState::FOCUS_VISIBLE),
        has_flags((b | InteractiveState::HOVER), InteractiveState::DISABLED) == has_flags(b, InteractiveState::DISABLED),
        has_flags((b | InteractiveState::HOVER), InteractiveState::FOCUS_VISIBLE) == has_flags(b, InteractiveState::FOCUS_VISIBLE),
        has_flags((b & !InteractiveState::HOVER), InteractiveState::DISABLED) == has_flags(b, InteractiveState::DISABLED),
        has_flags((b & !InteractiveState::HOVER), InteractiveState::FOCUS_VISIBLE) == has_flags(b, InteractiveState::FOCUS_VISIBLE),
        has_flags(((b | InteractiveState::HOVER) | (InteractiveState::ACTIVE | InteractiveState::FOCUS | InteractiveState::JUST_FOCUSED | InteractiveState::JUST_PRESSED)), InteractiveState::DISABLED) == has_flags(b, InteractiveState::DISABLED),
        has_flags(((b | InteractiveState::HOVER) | (InteractiveState::ACTIVE | InteractiveState::FOCUS | InteractiveState::JUST_FOCUSED | InteractiveState::JUST_PRESSED)), InteractiveState::FOCUS_VISIBLE) == has_flags(b, InteractiveState::FOCUS_VISIBLE),
        has_flags((((b & !InteractiveState::HOVER) & !InteractiveState::FOCUS) | InteractiveState::JUST_UNFOCUSED), InteractiveState::DISABLED) == has_flags(b, InteractiveState::DISABLED),
        has_flags((((b & !InteractiveState::HOVER) & !InteractiveState::FOCUS) | InteractiveState::JUST_UNFOCUSED), InteractiveState::FOCUS_VISIBLE) == has_flags(b, InteractiveState::FOCUS_VISIBLE),
        has_flags((((b | InteractiveState::HOVER) & !InteractiveState::ACTIVE) | (InteractiveState::JUST_RELEASED | InteractiveState::JUST_CLICKED)), InteractiveState::DISABLED) == has_flags(b, InteractiveState::DISABLED),
        has_flags((((b | InteractiveState::HOVER) & !InteractiveState::ACTIVE) | (InteractiveState::JUST_RELEASED | InteractiveState::JUST_CLICKED)), InteractiveState::FOCUS_VISIBLE) == has_flags(b, InteractiveState::FOCUS_VISIBLE),
        has_flags((((b & !InteractiveState::HOVER) & !InteractiveState::ACTIVE) | InteractiveState::JUST_RELEASED), InteractiveState::DISABLED) == has_flags(b, InteractiveState::DISABLED),
        has_flags((((b & !InteractiveState::HOVER) & !InteractiveState::ACTIVE) | InteractiveState::JUST_RELEASED), InteractiveState::FOCUS_VISIBLE) == has_flags(b, InteractiveState::FOCUS_VISIBLE),
{
}

/// The bit facts behind the frame laws of the pointer rules: which flags each branch leaves
/// alone.
proof fn lemma_frame_bits(b: u16)
    by (bit_vector)
    ensures
        (b | (0x1u16 | 0x200u16)) & !0x601u16 == b & !0x601u16,
        ((b & !0x1u16) | 0x400u16) & !0x601u16 == b & !0x601u16,
        has_flags((b | (InteractiveState::HOVER | InteractiveState::JUST_ENTERED)), InteractiveState::FOCUS) == has_flags(b, InteractiveState::FOCUS),
        has_flags(((b & !InteractiveState::HOVER) | InteractiveState::JUST_LEFT), InteractiveState::FOCUS) == has_flags(b, InteractiveState::FOCUS),
        has_flags(((b | InteractiveState::HOVER) & !InteractiveState::ACTIVE) | (InteractiveState::JUST_RELEASED | InteractiveState::JUST_CLICKED), InteractiveState::FOCUS) == has_flags(b, InteractiveState::FOCUS),
        has_flags(((b & !InteractiveState::HOVER) & !InteractiveState::ACTIVE) | (InteractiveState::JUST_RELEASED | InteractiveState::JUST_CLICKED), InteractiveState::FOCUS) == has_flags(b, InteractiveState::FOCUS),
        has_flags(((b | InteractiveState::HOVER) & !InteractiveState::ACTIVE) | InteractiveState::JUST_RELEASED, InteractiveState::FOCUS) == has_flags(b, InteractiveState::FOCUS),
        has_flags(((b & !InteractiveState::HOVER) & !InteractiveState::ACTIVE) | InteractiveState::JUST_RELEASED, InteractiveState::FOCUS) == has_flags(b, InteractiveState::FOCUS),
        has_flags((b | InteractiveState::HOVER), InteractiveState::FOCUS) == has_flags(b, InteractiveState::FOCUS),
        has_flags((b & !InteractiveState::HOVER), InteractiveState::FOCUS) == has_flags(b, InteractiveState::FOCUS),
{
}

/// A move of the pointer never changes anything but the hover flag and the enter and leave
/// marks, and is never handled. A secondary pointer, or a primary one whose position agrees
/// with the hover flag (it stays over the element, or stays away from it), changes nothing at
/// all: entering and leaving are only marked when the hover flag changes.
pub proof fn lemma_moves_only_change_hover(bits: u16, primary: bool, hit: bool)
    ensures
        ({
            let (after, result) = pointer_transition(bits, InteractionEvent::PointerMoved { primary }, hit);
            let marks = InteractiveState::HOVER | InteractiveState::JUST_ENTERED | InteractiveState::JUST_LEFT;
            &&& result == EventResult::Continue
            &&& after & !marks == bits & !marks
            &&& (!primary || has_flags(bits, InteractiveState::HOVER) == hit) ==> after == bits
        }),
{
    lemma_frame_bits(bits);
    assert(InteractiveState::HOVER | InteractiveState::JUST_ENTERED | InteractiveState::JUST_LEFT
        == 0x601u16) by (bit_vector);
}

/// The focus only changes when the primary left button is pressed: every other event (moves,
/// releases, the pointer leaving the window, other buttons and pointers, other events) keeps
/// the `FOCUS` flag as it was.
pub proof fn lemma_focus_changes_only_on_press(bits: u16, event: InteractionEvent, hit: bool)
    requires
        event != (InteractionEvent::PointerButton { primary: true, left_mouse: true, pressed: true }),
    ensures
        has_flags(pointer_transition(bits, event, hit).0, InteractiveState::FOCUS) == has_flags(
            bits,
            InteractiveState::FOCUS,
        ),
{
    lemma_frame_bits(bits);
    lemma_pointer_bits(bits);
}

/// The bit facts behind the law of [`InteractiveState::remove_transient_states`].
proof fn lemma_transient_bits(b: u16)
    by (bit_vector)
    ensures
        (b & !0x3fc0u16) & 0x3fc0 == 0,
        (b & !0x3fc0u16) & 0x3f == b & 0x3f,
        (b & !0x3fc0u16) & !0x3fc0u16 == b & !0x3fc0u16,
        (b & !0x3fc0u16) | (b & 0x3fc0u16) == b,
{
}

/// Setting `VALUE_CHANGED` sets it, whatever the other flags.
pub(crate) proof fn lemma_value_changed_set(b: u16)
    by (bit_vector)
    ensures
        has_flags(b | InteractiveState::VALUE_CHANGED, InteractiveState::VALUE_CHANGED),
{
}

/// The answer of the hit test is only read for the events of
/// [`InteractionEvent::needs_hit_test`]: for every other event, both answers lead to the same
/// state and the same result.
pub proof fn lemma_hit_test_unread_when_not_needed(bits: u16, event: InteractionEvent)
    requires
        !event.spec_needs_hit_test(),
    ensures
        pointer_transition(bits, event, true) == pointer_transition(bits, event, false),
{
}

/// Pointer interactions never change whether an element is disabled or visibly focused.
pub proof fn lemma_pointer_keeps_disabled_and_focus_visible(
    bits: u16,
    event: InteractionEvent,
    hit: bool,
)
    ensures
        has_flags(pointer_transition(bits, event, hit).0, InteractiveState::DISABLED) == has_flags(
            bits,
            InteractiveState::DISABLED,
        ),
        has_flags(pointer_transition(bits, event, hit).0, InteractiveState::FOCUS_VISIBLE) == has_flags(
            bits,
            InteractiveState::FOCUS_VISIBLE,
        ),
{
    lemma_pointer_bits(bits);
}

/// After a primary pointer moves, or after the primary left button is pressed or released,
/// the element is hovered exactly when the pointer is over it; when the primary pointer leaves
/// the window, the element is no longer hovered, and a hovered element is marked as just left.
pub proof fn lemma_hover_follows_pointer(bits: u16, event: InteractionEvent, hit: bool)
    ensures
        event.spec_needs_hit_test() ==> has_flags(
            pointer_transition(bits, event, hit).0,
            InteractiveState::HOVER,
        ) == hit,
        event == (InteractionEvent::PointerLeft { primary: true }) ==> !has_flags(
            pointer_transition(bits, event, hit).0,
            InteractiveState::HOVER,
        ),
        event == (InteractionEvent::PointerLeft { primary: true }) && has_flags(
            bits,
            InteractiveState::HOVER,
        ) ==> has_flags(pointer_transition(bits, event, hit).0, InteractiveState::JUST_LEFT),
{
    lemma_pointer_bits(bits);
}

/// Moving the primary pointer onto the element marks it as just entered, and moving it off
/// marks it as just left.
pub proof fn lemma_enter_and_leave(bits: u16, hit: bool)
    ensures
        ({
            let after = pointer_transition(bits, InteractionEvent::PointerMoved { primary: true }, hit).0;
            &&& (hit && !has_flags(bits, InteractiveState::HOVER)) ==> has_flags(after, InteractiveState::JUST_ENTERED)
            &&& (!hit && has_flags(bits, InteractiveState::HOVER)) ==> has_flags(after, InteractiveState::JUST_LEFT)
        }),
{
    lemma_pointer_bits(bits);
}

/// An event is handled by the interaction rules exactly when it is a press of the primary
/// left button over the element, or its release over the element while the element is active.
pub proof fn lemma_handled_exactly_on_press_or_click(
    bits: u16,
    event: InteractionEvent,
    hit: bool,
)
    ensures
        (pointer_transition(bits, event, hit).1 == EventResult::Handled) == (match event {
            InteractionEvent::PointerButton { primary, left_mouse, pressed } => primary
                && left_mouse && hit && (pressed || has_flags(bits, InteractiveState::ACTIVE)),
            _ => false,
        }),
{
    lemma_pointer_bits(bits);
}

/// Pressing the primary left button over the element makes it active and focused, and marks
/// it as just pressed and just focused; pressing it elsewhere removes the focus and marks the
/// element as just unfocused.
pub proof fn lemma_press_focuses(bits: u16, hit: bool)
    ensures
        ({
            let after = pointer_transition(
                bits,
                InteractionEvent::PointerButton { primary: true, left_mouse: true, pressed: true },
                hit,
            ).0;
            &&& hit ==> has_flags(after, InteractiveState::ACTIVE) && has_flags(after, InteractiveState::FOCUS)
                && has_flags(after, InteractiveState::JUST_PRESSED) && has_flags(
                after,
                InteractiveState::JUST_FOCUSED,
            )
            &&& !hit ==> !has_flags(after, InteractiveState::FOCUS) && has_flags(
                after,
                InteractiveState::JUST_UNFOCUSED,
            )
        }),
{
    lemma_pointer_bits(bits);
}

/// Releasing the primary left button leaves the element inactive; when the element was active,
/// it is marked as just released, and as just clicked if the release happened over it.
pub proof fn lemma_release_clicks(bits: u16, hit: bool)
    ensures
        ({
            let after = pointer_transition(
                bits,
                InteractionEvent::PointerButton { primary: true, left_mouse: true, pressed: false },
                hit,
            ).0;
            &&& !has_flags(after, InteractiveState::ACTIVE)
            &&& has_flags(bits, InteractiveState::ACTIVE) ==> has_flags(after, InteractiveState::JUST_RELEASED)
            &&& has_flags(bits, InteractiveState::ACTIVE) && hit ==> has_flags(
                after,
                InteractiveState::JUST_CLICKED,
            )
        }),
{
    lemma_pointer_bits(bits);
}

/// Removing the transient states clears every `JUST_*` flag and `VALUE_CHANGED`, keeps every
/// other bit (named flag or not), and removing them twice is the same as removing them once.
pub proof fn lemma_remove_transient_states(bits: u16)
    ensures
        (bits & !InteractiveState::TRANSIENT) & InteractiveState::TRANSIENT == 0,
        (bits & !InteractiveState::TRANSIENT) & 0x3f == bits & 0x3f,
        (bits & !InteractiveState::TRANSIENT) & !InteractiveState::TRANSIENT == bits
            & !InteractiveState::TRANSIENT,
        (bits & !InteractiveState::TRANSIENT) | (bits & InteractiveState::TRANSIENT) == bits,
{
    lemma_transient_bits(bits);
}

} // verus!
