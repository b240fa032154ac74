use kui::text_input::char_is_whitespace;
use kui::event::EventResult;
use kui::interactive::{InteractionEvent, InteractiveState};
use kui::text_input::{remove_last_word, InputEvent, Key, KeyInput, Modifiers, TextInput};

fn removed(s: &str) -> String {
    let mut s = s.to_string();
    remove_last_word(&mut s);
    s
}

fn key(key: Key, text: Option<&str>) -> KeyInput {
    KeyInput { pressed: true, key, text: text.map(|t| t.to_string()) }
}

fn input(value: &str) -> TextInput<()> {
    TextInput { value: value.to_string(), state: InteractiveState::empty(), appearance: () }
}

const CTRL: Modifiers = Modifiers { control: true, alt: false, super_key: false };
const ALT: Modifiers = Modifiers { control: false, alt: true, super_key: false };
const SUPER: Modifiers = Modifiers { control: false, alt: false, super_key: true };

#[test]
fn remove_last_word_examples() {
    assert_eq!(removed("hello world"), "hello");
    assert_eq!(removed("hello world   "), "hello");
    assert_eq!(removed("one two\tthree\n"), "one two");
    assert_eq!(removed("hello"), "");
    assert_eq!(removed("   "), "");
    assert_eq!(removed(""), "");
    assert_eq!(removed("héllo wörld"), "héllo");
    assert_eq!(removed("a\u{3000}b"), "a");
}

#[test]
fn remove_last_word_leaves_a_prefix_without_trailing_space() {
    for s in ["", "a", "a b", "  a  b  ", "x\ty\nz ", "mot,  mot2"] {
        let r = removed(s);
        assert!(s.starts_with(&r));
        assert!(r.chars().last().map_or(true, |c| !c.is_whitespace()));
    }
}

#[test]
fn backspace_removes_the_last_character() {
    let mut t = input("abc");
    assert!(t.handle_key_event(Modifiers::default(), &key(Key::Backspace, None), false));
    assert_eq!(t.value, "ab");
    assert!(t.state.value_changed());
    let mut t = input("");
    assert!(t.handle_key_event(Modifiers::default(), &key(Key::Backspace, None), false));
    assert_eq!(t.value, "");
    assert!(t.state.value_changed());
}

#[test]
fn control_backspace_removes_a_word_off_macos() {
    let mut t = input("hello big world");
    assert!(t.handle_key_event(CTRL, &key(Key::Backspace, None), false));
    assert_eq!(t.value, "hello big");
}

#[test]
fn macos_backspace_shortcuts() {
    let mut t = input("hello big world");
    assert!(!t.handle_key_event(CTRL, &key(Key::Backspace, None), true));
    assert_eq!(t.value, "hello big world");
    assert!(!t.state.value_changed());
    assert!(t.handle_key_event(ALT, &key(Key::Backspace, None), true));
    assert_eq!(t.value, "hello big");
    assert!(t.handle_key_event(SUPER, &key(Key::Backspace, None), true));
    assert_eq!(t.value, "");
    let mut t = input("xy");
    assert!(t.handle_key_event(Modifiers::default(), &key(Key::Backspace, None), true));
    assert_eq!(t.value, "x");
}

#[test]
fn enter_and_tab_are_consumed_without_effect() {
    let mut t = input("abc");
    assert!(t.handle_key_event(Modifiers::default(), &key(Key::Enter, Some("\r")), false));
    assert!(t.handle_key_event(Modifiers::default(), &key(Key::Tab, Some("\t")), false));
    assert_eq!(t.value, "abc");
    assert!(!t.state.value_changed());
}

#[test]
fn typed_text_is_appended() {
    let mut t = input("ab");
    assert!(t.handle_key_event(Modifiers::default(), &key(Key::Other, Some("cé")), false));
    assert_eq!(t.value, "abcé");
    assert!(t.state.value_changed());
    assert!(!t.handle_key_event(Modifiers::default(), &key(Key::Other, None), false));
    assert_eq!(t.value, "abcé");
}

#[test]
fn released_keys_are_ignored() {
    let mut t = input("ab");
    let ev = KeyInput { pressed: false, key: Key::Backspace, text: Some("x".to_string()) };
    assert!(!t.handle_key_event(Modifiers::default(), &ev, false));
    assert_eq!(t.value, "ab");
    assert_eq!(t.state.bits(), 0);
}

#[test]
fn appearance_keeps_value_and_state() {
    let mut t = input("v");
    t.state.insert(InteractiveState::FOCUS);
    let t2 = t.appearance(5i32);
    assert_eq!(t2.value, "v");
    assert!(t2.state.focused());
    assert_eq!(t2.appearance, 5);
}

#[test]
fn keys_only_reach_a_focused_input() {
    let mut t = input("ab");
    let typed = InputEvent::Key(key(Key::Other, Some("c")));
    let (r, changed) = t.handle_event(&typed, false, Modifiers::default(), false);
    assert_eq!(r, EventResult::Continue);
    assert!(!changed);
    assert_eq!(t.value, "ab");

    let press = InputEvent::Pointer(InteractionEvent::PointerButton {
        primary: true,
        left_mouse: true,
        pressed: true,
    });
    let (r, changed) = t.handle_event(&press, true, Modifiers::default(), false);
    assert_eq!(r, EventResult::Handled);
    assert!(changed);
    assert!(t.state.focused());

    let (r, changed) = t.handle_event(&typed, false, Modifiers::default(), false);
    assert_eq!(r, EventResult::Handled);
    assert!(changed);
    assert_eq!(t.value, "abc");
    assert!(t.state.value_changed());

    // Even a key that is not consumed is handled by a focused input.
    let released = InputEvent::Key(KeyInput { pressed: false, key: Key::Other, text: None });
    let (r, _) = t.handle_event(&released, false, Modifiers::default(), false);
    assert_eq!(r, EventResult::Handled);
    assert_eq!(t.value, "abc");
}

#[test]
fn white_space_agrees_with_the_standard_library() {
    for n in 0u32..0x11000 {
        if let Some(c) = char::from_u32(n) {
            assert_eq!(char_is_whitespace(c), c.is_whitespace(), "U+{n:04X}");
        }
    }
    assert!(char_is_whitespace('\u{3000}'));
    assert!(!char_is_whitespace('\u{200B}'));
}
