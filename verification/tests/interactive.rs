use kui::event::EventResult;
use kui::interactive::{InteractionEvent, InteractiveState};

fn state(bits: u16) -> InteractiveState {
    InteractiveState::from_bits_retain(bits)
}

#[test]
fn empty_state_has_no_flag() {
    let s = InteractiveState::empty();
    assert_eq!(s.bits(), 0);
    assert!(!s.hover());
    assert!(!s.active());
    assert!(!s.disabled());
    assert!(!s.focused());
    assert!(!s.focus_visible());
    assert!(!s.value_changed());
    assert_eq!(InteractiveState::default(), s);
}

#[test]
fn each_query_reads_its_own_flag() {
    assert!(state(InteractiveState::HOVER).hover());
    assert!(state(InteractiveState::ACTIVE).active());
    assert!(state(InteractiveState::DISABLED).disabled());
    assert!(state(InteractiveState::FOCUS).focused());
    assert!(state(InteractiveState::FOCUS_VISIBLE).focus_visible());
    assert!(state(InteractiveState::JUST_PRESSED).just_pressed());
    assert!(state(InteractiveState::JUST_RELEASED).just_released());
    assert!(state(InteractiveState::JUST_CLICKED).just_clicked());
    assert!(state(InteractiveState::JUST_ENTERED).just_entered());
    assert!(state(InteractiveState::JUST_LEFT).just_left());
    assert!(state(InteractiveState::JUST_FOCUSED).just_focused());
    assert!(state(InteractiveState::JUST_UNFOCUSED).just_unfocused());
    assert!(state(InteractiveState::VALUE_CHANGED).value_changed());
    // Focusing is not a change of value.
    assert!(!state(InteractiveState::JUST_FOCUSED).value_changed());
    assert!(!state(InteractiveState::HOVER).active());
}

#[test]
fn insert_remove_and_set() {
    let mut s = InteractiveState::empty();
    s.insert(InteractiveState::HOVER | InteractiveState::FOCUS);
    assert_eq!(s.bits(), 0x9);
    assert!(s.contains(InteractiveState::HOVER | InteractiveState::FOCUS));
    s.remove(InteractiveState::HOVER);
    assert_eq!(s.bits(), 0x8);
    s.set(InteractiveState::DISABLED, true);
    assert_eq!(s.bits(), 0xc);
    s.set(InteractiveState::FOCUS, false);
    assert_eq!(s.bits(), 0x4);
    assert_eq!(s.union(state(0x1)).bits(), 0x5);
    assert!(!s.contains(InteractiveState::HOVER | InteractiveState::DISABLED));
}

#[test]
fn remove_transient_states_keeps_lasting_flags() {
    let mut s = state(0xffff);
    s.remove_transient_states();
    assert_eq!(s.bits(), 0xffff & !0x3fc0);
    assert!(s.hover() && s.active() && s.disabled() && s.focused() && s.focus_visible());
    assert!(!s.just_pressed() && !s.just_clicked() && !s.value_changed() && !s.just_left());
    let once = s;
    s.remove_transient_states();
    assert_eq!(s, once);
}

#[test]
fn pointer_moving_onto_and_off_the_element() {
    let mut s = InteractiveState::empty();
    let ev = InteractionEvent::PointerMoved { primary: true };
    assert!(ev.needs_hit_test());
    assert_eq!(s.handle_pointer_interactions(ev, true), EventResult::Continue);
    assert!(s.hover() && s.just_entered());
    assert_eq!(s.bits(), InteractiveState::HOVER | InteractiveState::JUST_ENTERED);
    // Staying over the element changes nothing.
    let before = s;
    assert_eq!(s.handle_pointer_interactions(ev, true), EventResult::Continue);
    assert_eq!(s, before);
    assert_eq!(s.handle_pointer_interactions(ev, false), EventResult::Continue);
    assert!(!s.hover() && s.just_left());
}

#[test]
fn secondary_pointers_are_ignored() {
    let mut s = state(InteractiveState::FOCUS);
    for ev in [
        InteractionEvent::PointerMoved { primary: false },
        InteractionEvent::PointerButton { primary: false, left_mouse: true, pressed: true },
        InteractionEvent::PointerButton { primary: true, left_mouse: false, pressed: true },
        InteractionEvent::PointerLeft { primary: false },
        InteractionEvent::Other,
    ] {
        assert!(!ev.needs_hit_test());
        assert_eq!(s.handle_pointer_interactions(ev, true), EventResult::Continue);
        assert_eq!(s.bits(), InteractiveState::FOCUS);
    }
}

#[test]
fn press_over_the_element_activates_and_focuses_it() {
    let mut s = InteractiveState::empty();
    let press = InteractionEvent::PointerButton { primary: true, left_mouse: true, pressed: true };
    assert_eq!(s.handle_pointer_interactions(press, true), EventResult::Handled);
    assert_eq!(s.bits(), 0x1 | 0x2 | 0x8 | 0x40 | 0x800);
    assert!(s.active() && s.focused() && s.just_pressed() && s.just_focused() && s.hover());
}

#[test]
fn press_outside_the_element_unfocuses_it() {
    let mut s = state(InteractiveState::FOCUS | InteractiveState::HOVER);
    let press = InteractionEvent::PointerButton { primary: true, left_mouse: true, pressed: true };
    assert_eq!(s.handle_pointer_interactions(press, false), EventResult::Continue);
    assert_eq!(s.bits(), InteractiveState::JUST_UNFOCUSED);
}

#[test]
fn release_over_an_active_element_clicks_it() {
    let mut s = state(InteractiveState::ACTIVE | InteractiveState::HOVER);
    let release = InteractionEvent::PointerButton { primary: true, left_mouse: true, pressed: false };
    assert_eq!(s.handle_pointer_interactions(release, true), EventResult::Handled);
    assert!(!s.active() && s.just_released() && s.just_clicked() && s.hover());
}

#[test]
fn release_outside_an_active_element_does_not_click_it() {
    let mut s = state(InteractiveState::ACTIVE | InteractiveState::HOVER);
    let release = InteractionEvent::PointerButton { primary: true, left_mouse: true, pressed: false };
    assert_eq!(s.handle_pointer_interactions(release, false), EventResult::Continue);
    assert_eq!(s.bits(), InteractiveState::JUST_RELEASED);
}

#[test]
fn release_over_an_inactive_element_only_updates_hover() {
    let mut s = InteractiveState::empty();
    let release = InteractionEvent::PointerButton { primary: true, left_mouse: true, pressed: false };
    assert_eq!(s.handle_pointer_interactions(release, true), EventResult::Continue);
    assert_eq!(s.bits(), InteractiveState::HOVER);
}

#[test]
fn pointer_leaving_the_window_clears_hover() {
    let mut s = state(InteractiveState::HOVER | InteractiveState::FOCUS);
    let left = InteractionEvent::PointerLeft { primary: true };
    assert_eq!(s.handle_pointer_interactions(left, false), EventResult::Continue);
    assert_eq!(s.bits(), InteractiveState::FOCUS | InteractiveState::JUST_LEFT);
    assert!(!s.hover() && s.just_left());
    // A pointer that was not over the element changes nothing.
    let mut s = state(InteractiveState::FOCUS);
    assert_eq!(s.handle_pointer_interactions(left, true), EventResult::Continue);
    assert_eq!(s.bits(), InteractiveState::FOCUS);
}

#[test]
fn disabled_and_focus_visible_survive_any_pointer_event() {
    let start = InteractiveState::DISABLED | InteractiveState::FOCUS_VISIBLE;
    for ev in [
        InteractionEvent::PointerMoved { primary: true },
        InteractionEvent::PointerButton { primary: true, left_mouse: true, pressed: true },
        InteractionEvent::PointerButton { primary: true, left_mouse: true, pressed: false },
        InteractionEvent::PointerLeft { primary: true },
    ] {
        for hit in [false, true] {
            let mut s = state(start);
            s.handle_pointer_interactions(ev, hit);
            assert!(s.disabled() && s.focus_visible());
        }
    }
}
