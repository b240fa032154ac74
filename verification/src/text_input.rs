//! An element that lets the user input text.
use crate::event::EventResult;
use crate::interactive::{has_flags, pointer_transition, InteractionEvent, InteractiveState};
use vstd::prelude::*;
use vstd::string::StringExecFns;

verus! {

/// Whether `c` has the Unicode `White_Space` property (the set of `char::is_whitespace`):
/// U+0009 to U+000D, U+0020, U+0085, U+00A0, U+1680, U+2000 to U+200A, U+2028, U+2029, U+202F,
/// U+205F and U+3000.
pub open spec fn is_white_space(c: char) -> bool {
    let n = c as u32;
    ||| 0x9 <= n <= 0xd
    ||| n == 0x20
    ||| n == 0x85
    ||| n == 0xa0
    ||| n == 0x1680
    ||| 0x2000 <= n <= 0x200a
    ||| n == 0x2028
    ||| n == 0x2029
    ||| n == 0x202f
    ||| n == 0x205f
    ||| n == 0x3000
}

/// Whether `c` is white space (see [`is_white_space`]).
pub fn char_is_whitespace(c: char) -> (r: bool)
    ensures
        r == is_white_space(c),
{
    let n = c as u32;
    (0x9 <= n && n <= 0xd) || n == 0x20 || n == 0x85 || n == 0xa0 || n == 0x1680 || (0x2000 <= n
        && n <= 0x200a) || n == 0x2028 || n == 0x2029 || n == 0x202f || n == 0x205f || n == 0x3000
}

/// Removes the last character of `s` (`String::pop`): `None` when `s` is empty, and then `s`
/// is left as it was.
#[verifier::external_body]
fn string_pop(s: &mut String) -> (r: Option<char>)
    ensures
        match r {
            Some(c) => old(s)@.len() > 0 && c == old(s)@.last() && final(s)@ == old(s)@.drop_last(),
            None => old(s)@.len() == 0 && final(s)@ == old(s)@,
        },
{
    s.pop()
}

/// Removes all the content of `s` (`String::clear`).
#[verifier::external_body]
fn string_clear(s: &mut String)
    ensures
        final(s)@ == Seq::<char>::empty(),
{
    s.clear()
}

/// `s` without its trailing characters that are white space (when `white` holds) or that are
/// not white space (otherwise).
pub open spec fn trim_end(s: Seq<char>, white: bool) -> Seq<char>
    decreases s.len(),
{
    if s.len() > 0 && is_white_space(s.last()) == white {
        trim_end(s.drop_last(), white)
    } else {
        s
    }
}

/// `s` without its last word: trailing white space, then the word before it, then the white
/// space before that word are removed.
pub open spec fn without_last_word(s: Seq<char>) -> Seq<char> {
    trim_end(trim_end(trim_end(s, true), false), true)
}

/// Trimming the end of a sequence leaves one of its prefixes, which does not end with a
/// character of the trimmed kind.
pub proof fn lemma_trim_end_is_prefix(s: Seq<char>, white: bool)
    ensures
        trim_end(s, white).len() <= s.len(),
        trim_end(s, white) == s.take(trim_end(s, white).len() as int),
        trim_end(s, white).len() > 0 ==> is_white_space(trim_end(s, white).last()) != white,
    decreases s.len(),
{
    if s.len() > 0 && is_white_space(s.last()) == white {
        lemma_trim_end_is_prefix(s.drop_last(), white);
        assert(s.drop_last().take(trim_end(s, white).len() as int) =~= s.take(
            trim_end(s, white).len() as int,
        ));
    } else {
        assert(s.take(s.len() as int) =~= s);
    }
}

/// Removing the last word leaves a prefix of the text, which does not end with white space.
pub proof fn lemma_without_last_word_is_prefix(s: Seq<char>)
    ensures
        without_last_word(s).len() <= s.len(),
        without_last_word(s) == s.take(without_last_word(s).len() as int),
        without_last_word(s).len() > 0 ==> !is_white_space(without_last_word(s).last()),
{
    let a = trim_end(s, true);
    let b = trim_end(a, false);
    lemma_trim_end_is_prefix(s, true);
    lemma_trim_end_is_prefix(a, false);
    lemma_trim_end_is_prefix(b, true);
    let c = trim_end(b, true);
    assert(c =~= s.take(c.len() as int));
}

/// The number of characters of `s.take(i)` that are left once its trailing characters of the
/// kind `white` are trimmed.
fn trimmed_len(s: &str, i: usize, white: bool) -> (r: usize)
    requires
        i <= s@.len(),
    ensures
        r <= i,
        trim_end(s@.take(i as int), white) == s@.take(r as int),
{
    let mut j = i;
    while j > 0 && char_is_whitespace(s.get_char(j - 1)) == white
        invariant
            j <= i,
            i <= s@.len(),
            trim_end(s@.take(i as int), white) == trim_end(s@.take(j as int), white),
        decreases j,
    {
        assert(s@.take(j as int).drop_last() =~= s@.take(j - 1));
        j = j - 1;
    }
    assert(s@.take(0) =~= Seq::<char>::empty());
    j
}

/// Removes the last word of the provided string.
pub fn remove_last_word(s: &mut String)
    ensures
        final(s)@ == without_last_word(old(s)@),
{
    let n = s.as_str().unicode_len();
    assert(old(s)@.take(n as int) =~= old(s)@);
    let a = trimmed_len(s.as_str(), n, true);
    let b = trimmed_len(s.as_str(), a, false);
    let c = trimmed_len(s.as_str(), b, true);
    let mut k = n;
    while k > c
        invariant
            c <= k <= n,
            n == old(s)@.len(),
            s@ == old(s)@.take(k as int),
            old(s)@.take(c as int) == without_last_word(old(s)@),
        decreases k,
    {
        string_pop(s);
        assert(old(s)@.take(k as int).drop_last() =~= old(s)@.take(k - 1));
        k = k - 1;
    }
}

/// The logical key of a keyboard event, as far as a text input reads it.
#[derive(Clone, Copy, Debug, PartialEq, Eq, Structural)]
pub enum Key {
    /// The backspace key.
    Backspace,
    /// The enter key.
    Enter,
    /// The tab key.
    Tab,
    /// Any other key.
    Other,
}

/// The state of the keyboard modifiers during a keyboard event.
#[derive(Clone, Copy, Debug, Default, PartialEq, Eq, Structural)]
pub struct Modifiers {
    /// The control key is held.
    pub control: bool,
    /// The alt (option) key is held.
    pub alt: bool,
    /// The super (command, windows) key is held.
    pub super_key: bool,
}

/// A keyboard event: the state of a key has changed.
#[derive(Clone, Debug)]
pub struct KeyInput {
    /// Whether the key was pressed (otherwise it was released).
    pub pressed: bool,
    /// The logical key.
    pub key: Key,
    /// The text that the key produces, if any.
    pub text: Option<String>,
}

/// An event, as a text input reads it.
#[derive(Clone, Debug)]
pub enum InputEvent {
    /// A pointer event (or any other event that is not a keyboard event).
    Pointer(InteractionEvent),
    /// A keyboard event.
    Key(KeyInput),
}

impl InputEvent {
    /// The event as the interaction rules read it: a keyboard event is not a pointer event.
    pub open spec fn spec_interaction(&self) -> InteractionEvent {
        match self {
            InputEvent::Pointer(e) => *e,
            InputEvent::Key(_) => InteractionEvent::Other,
        }
    }

    /// The event as the interaction rules read it: a keyboard event is not a pointer event.
    pub fn interaction(&self) -> (r: InteractionEvent)
        ensures
            r == self.spec_interaction(),
    {
        match self {
            InputEvent::Pointer(e) => *e,
            InputEvent::Key(_) => InteractionEvent::Other,
        }
    }
}

/// `s` without its last character, or `s` itself when it is empty.
pub open spec fn without_last_char(s: Seq<char>) -> Seq<char> {
    if s.len() > 0 {
        s.drop_last()
    } else {
        s
    }
}

/// The text that the backspace key leaves of `value` with the modifiers `m`, or `None` when
/// the key is ignored (control-backspace on macOS).
///
/// On macOS, command-backspace clears the text and option-backspace removes the last word; on
/// the other platforms, control-backspace removes the last word. Otherwise backspace removes
/// the last character.
pub open spec fn backspace_edit(value: Seq<char>, m: Modifiers, macos: bool) -> Option<Seq<char>> {
    if macos {
        if m.control {
            None
        } else if m.super_key {
            Some(Seq::<char>::empty())
        } else if m.alt {
            Some(without_last_word(value))
        } else {
            Some(without_last_char(value))
        }
    } else if m.control {
        Some(without_last_word(value))
    } else {
        Some(without_last_char(value))
    }
}

/// What a key event does to the text `value`: whether the key is consumed, the new text, and
/// whether the value counts as changed.
///
/// Released keys are ignored. Backspace edits the text (see [`backspace_edit`]); enter and tab
/// are consumed without effect; any other key that produces text appends it.
pub open spec fn key_outcome(value: Seq<char>, m: Modifiers, event: KeyInput, macos: bool) -> (
    bool,
    Seq<char>,
    bool,
) {
    if !event.pressed {
        (false, value, false)
    } else if event.key == Key::Backspace {
        match backspace_edit(value, m, macos) {
            Some(v) => (true, v, true),
            None => (false, value, false),
        }
    } else if event.key == Key::Enter || event.key == Key::Tab {
        (true, value, false)
    } else {
        match event.text {
            Some(t) => (true, value + t@, true),
            None => (false, value, false),
        }
    }
}

/// An element that allows the user to input text.
///
/// This does not include any text rendering.
#[derive(Clone, Debug, Default)]
pub struct TextInput<A> {
    /// The value of the text input element.
    pub value: String,
    /// The state of the interactive element.
    pub state: InteractiveState,
    /// The appearance of the text input element.
    pub appearance: A,
}

impl<A> TextInput<A> {
    /// Sets the appearance of the text input element.
    pub fn appearance<A2>(self, appearance: A2) -> (r: TextInput<A2>)
        ensures
            r.value@ == self.value@,
            r.state == self.state,
            r.appearance == appearance,
    {
        TextInput { value: self.value, state: self.state, appearance }
    }

    /// Handles a key event.
    ///
    /// Returns whether the key was consumed; see [`key_outcome`]. When the value counts as
    /// changed, the `VALUE_CHANGED` flag is set.
    pub fn handle_key_event(&mut self, modifiers: Modifiers, event: &KeyInput, macos: bool) -> (r:
        bool)
        ensures
            final(self).appearance == old(self).appearance,
            ({
                let (consumed, value, changed) = key_outcome(old(self).value@, modifiers, *event, macos);
                &&& r == consumed
                &&& final(self).value@ == value
                &&& final(self).state.spec_bits() == (if changed {
                    old(self).state.spec_bits() | InteractiveState::VALUE_CHANGED
                } else {
                    old(self).state.spec_bits()
                })
            }),
    {
        if !event.pressed {
            return false;
        }
        if event.key == Key::Backspace {
            if macos {
                if modifiers.control {
                    return false;
                }
                if modifiers.super_key {
                    string_clear(&mut self.value);
                } else if modifiers.alt {
                    remove_last_word(&mut self.value);
                } else {
                    string_pop(&mut self.value);
                }
            } else {
                if modifiers.control {
                    remove_last_word(&mut self.value);
                } else {
                    string_pop(&mut self.value);
                }
            }
            self.state.insert(InteractiveState::VALUE_CHANGED);
            return true;
        }
        if event.key == Key::Enter || event.key == Key::Tab {
            return true;
        }
        match &event.text {
            Some(text) => {
                self.value.append(text.as_str());
                self.state.insert(InteractiveState::VALUE_CHANGED);
                true
            },
            None => false,
        }
    }
}

/// The text, the interaction flags and the result that a text input with the text `value` and
/// the flags `bits` reaches by handling `event`.
///
/// The transient flags are cleared and the pointer rules are applied; then, when the input is
/// focused, a keyboard event is handed to the key rules (see [`key_outcome`]) and counts as
/// handled, whether or not the key was consumed.
pub open spec fn text_input_transition(
    value: Seq<char>,
    bits: u16,
    event: InputEvent,
    hit: bool,
    m: Modifiers,
    macos: bool,
) -> (Seq<char>, u16, EventResult) {
    let (after, result) = pointer_transition(
        bits & !InteractiveState::TRANSIENT,
        event.spec_interaction(),
        hit,
    );
    match event {
        InputEvent::Key(k) => if has_flags(after, InteractiveState::FOCUS) {
            let (_, v, changed) = key_outcome(value, m, k, macos);
            (
                v,
                if changed {
                    after | InteractiveState::VALUE_CHANGED
                } else {
                    after
                },
                EventResult::Handled,
            )
        } else {
            (value, after, result)
        },
        InputEvent::Pointer(_) => (value, after, result),
    }
}

impl<A> TextInput<A> {
    /// Handles an event: updates the interaction state and, for keyboard events reaching a
    /// focused input, the text.
    ///
    /// `hit` is the answer of the appearance's hit test at the event's position, `modifiers`
    /// the state of the keyboard modifiers of the window and `macos` whether the backspace
    /// shortcuts of macOS apply. The result is the event result and whether the interaction
    /// state changed (compared with the state once the transient flags of the previous event
    /// were cleared). When the event result is [`EventResult::Continue`], the event goes on to
    /// the appearance and the input answers [`EventResult::Continue`].
    pub fn handle_event(
        &mut self,
        event: &InputEvent,
        hit: bool,
        modifiers: Modifiers,
        macos: bool,
    ) -> (r: (EventResult, bool))
        ensures
            (final(self).value@, final(self).state.spec_bits(), r.0) == text_input_transition(
                old(self).value@,
                old(self).state.spec_bits(),
                *event,
                hit,
                modifiers,
                macos,
            ),
            r.1 == (final(self).state.spec_bits() != (old(self).state.spec_bits()
                & !InteractiveState::TRANSIENT)),
            final(self).appearance == old(self).appearance,
    {
        self.state.remove_transient_states();
        let og_bits = self.state.bits();
        let mut event_result = self.state.handle_pointer_interactions(event.interaction(), hit);
        if self.state.focused() {
            match event {
                InputEvent::Key(k) => {
                    self.handle_key_event(modifiers, k, macos);
                    event_result = EventResult::Handled;
                },
                InputEvent::Pointer(_) => {},
            }
        }
        let changed = og_bits != self.state.bits();
        (event_result, changed)
    }
}

/// A text input that is not focused once the pointer rules have run leaves its text as it was.
pub proof fn lemma_unfocused_input_keeps_text(
    value: Seq<char>,
    bits: u16,
    event: InputEvent,
    hit: bool,
    m: Modifiers,
    macos: bool,
)
    requires
        !has_flags(
            pointer_transition(bits & !InteractiveState::TRANSIENT, event.spec_interaction(), hit).0,
            InteractiveState::FOCUS,
        ),
    ensures
        text_input_transition(value, bits, event, hit, m, macos).0 == value,
{
}

/// Typing a key that produces text into a focused input appends that text, marks the value as
/// changed and handles the event; released keys and enter and tab leave the text as it was.
pub proof fn lemma_typing_appends(
    value: Seq<char>,
    bits: u16,
    k: KeyInput,
    hit: bool,
    m: Modifiers,
    macos: bool,
)
    requires
        has_flags(bits & !InteractiveState::TRANSIENT, InteractiveState::FOCUS),
    ensures
        ({
            let (v, b, r) = text_input_transition(value, bits, InputEvent::Key(k), hit, m, macos);
            &&& r == EventResult::Handled
            &&& (k.pressed && k.key == Key::Other && k.text is Some) ==> v == value
                + k.text.unwrap()@ && has_flags(b, InteractiveState::VALUE_CHANGED)
            &&& (!k.pressed || k.key == Key::Enter || k.key == Key::Tab) ==> v == value
        }),
{
    crate::interactive::lemma_value_changed_set(bits & !InteractiveState::TRANSIENT);
}

/// Clearing the transient flags keeps the focus and clears `VALUE_CHANGED`.
proof fn lemma_transient_keeps_focus(b: u16)
    by (bit_vector)
    ensures
        has_flags(b & !InteractiveState::TRANSIENT, InteractiveState::FOCUS) == has_flags(
            b,
            InteractiveState::FOCUS,
        ),
        !has_flags(b & !InteractiveState::TRANSIENT, InteractiveState::VALUE_CHANGED),
{
}

/// What a pressed backspace does to the text `v`. Off macOS, it removes the last word when
/// control is held and otherwise the last character (nothing when the text is empty), whatever
/// alt and super are. On macOS, control-backspace is ignored; otherwise command-backspace
/// clears the text, option-backspace removes the last word, and backspace alone removes the
/// last character. Whenever the key is consumed, the value counts as changed.
pub proof fn lemma_backspace_edits(v: Seq<char>, m: Modifiers, text: Option<String>, macos: bool)
    ensures
        ({
            let (consumed, after, changed) = key_outcome(
                v,
                m,
                (KeyInput { pressed: true, key: Key::Backspace, text }),
                macos,
            );
            let last_char_removed = if v.len() > 0 {
                v.subrange(0, v.len() - 1)
            } else {
                v
            };
            &&& consumed == changed
            &&& !macos ==> consumed && after == (if m.control {
                without_last_word(v)
            } else {
                last_char_removed
            })
            &&& (macos && m.control) ==> !consumed && after == v
            &&& (macos && !m.control && m.super_key) ==> consumed && after.len() == 0
            &&& (macos && !m.control && !m.super_key && m.alt) ==> consumed && after
                == without_last_word(v)
            &&& (macos && !m.control && !m.super_key && !m.alt) ==> consumed && after
                == last_char_removed
        }),
{
    if v.len() > 0 {
        assert(v.drop_last() =~= v.subrange(0, v.len() - 1));
    }
}

/// A key event reaching a focused text input is handled, and edits the text with the
/// modifiers of the call: the text becomes what the key rules give for the old text, these
/// modifiers and this key, and `VALUE_CHANGED` is set exactly when those rules say the value
/// changed. In particular, off macOS a pressed backspace with control held removes the last
/// word, and without control removes the last character.
pub proof fn lemma_focused_input_edits_with_modifiers(
    value: Seq<char>,
    bits: u16,
    k: KeyInput,
    hit: bool,
    m: Modifiers,
    macos: bool,
)
    requires
        has_flags(bits, InteractiveState::FOCUS),
    ensures
        ({
            let (v, b, r) = text_input_transition(value, bits, InputEvent::Key(k), hit, m, macos);
            &&& r == EventResult::Handled
            &&& v == key_outcome(value, m, k, macos).1
            &&& has_flags(b, InteractiveState::VALUE_CHANGED) == key_outcome(value, m, k, macos).2
            &&& (k.pressed && k.key == Key::Backspace && !macos) ==> v == (if m.control {
                without_last_word(value)
            } else if value.len() > 0 {
                value.subrange(0, value.len() - 1)
            } else {
                value
            })
        }),
{
    lemma_transient_keeps_focus(bits);
    crate::interactive::lemma_value_changed_set(bits & !InteractiveState::TRANSIENT);
    lemma_backspace_edits(value, m, k.text, macos);
}

} // verus!
