use kui::button::Button;
use kui::elements::button;
use kui::event::EventResult;
use kui::interactive::{InteractionEvent, InteractiveState};

const PRESS: InteractionEvent =
    InteractionEvent::PointerButton { primary: true, left_mouse: true, pressed: true };
const RELEASE: InteractionEvent =
    InteractionEvent::PointerButton { primary: true, left_mouse: true, pressed: false };

#[test]
fn new_button_is_idle_and_acts_on_release() {
    let b = Button::new(7u32);
    assert_eq!(b.state().bits(), 0);
    assert!(!b.act_on_press);
    assert_eq!(b.appearance, 7);
    let b = button();
    assert_eq!(b.state().bits(), 0);
    assert!(!b.act_on_press);
}

#[test]
fn builders_set_their_field() {
    let b = Button::new(1u8).disabled(true).act_on_press(true);
    assert!(b.state().disabled());
    assert!(b.act_on_press);
    let b = b.disabled(false);
    assert!(!b.state().disabled());
    let b = b.disabled(true).child("look");
    assert_eq!(b.appearance, "look");
    assert!(b.act_on_press);
    assert!(b.state().disabled());
}

#[test]
fn button_acting_on_release_acts_on_click() {
    let mut b = Button::new(());
    let (r, changed) = b.handle_event(PRESS, true);
    assert_eq!(r, EventResult::Handled);
    assert!(changed);
    assert!(!b.state().value_changed());
    let (r, changed) = b.handle_event(RELEASE, true);
    assert_eq!(r, EventResult::Handled);
    assert!(changed);
    assert!(b.state().value_changed() && b.state().just_clicked());
}

#[test]
fn button_acting_on_press_acts_at_once() {
    let mut b = Button::new(()).act_on_press(true);
    let (r, _) = b.handle_event(PRESS, true);
    assert_eq!(r, EventResult::Handled);
    assert!(b.state().value_changed() && b.state().just_pressed());
    // The release is handled too, but the button does not act a second time.
    let (r, _) = b.handle_event(RELEASE, true);
    assert_eq!(r, EventResult::Handled);
    assert!(!b.state().value_changed());
}

#[test]
fn release_outside_does_not_act() {
    let mut b = Button::new(());
    b.handle_event(PRESS, true);
    let (r, changed) = b.handle_event(RELEASE, false);
    assert_eq!(r, EventResult::Continue);
    assert!(changed);
    assert!(!b.state().value_changed());
    assert!(!b.state().active());
}

#[test]
fn unrelated_event_clears_transient_flags() {
    let mut b = Button::new(());
    b.handle_event(PRESS, true);
    let before = b.state().bits();
    let (r, changed) = b.handle_event(InteractionEvent::Other, false);
    assert_eq!(r, EventResult::Continue);
    assert!(!changed);
    assert_eq!(b.state().bits(), before & !InteractiveState::TRANSIENT);
}
