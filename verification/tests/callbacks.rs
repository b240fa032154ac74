use kui::app_state::{ControlFlow, TimedCallbacks};
use kui::ctx::{CallbackClock, CallbackRegistry};
use kui::with_cursor::CursorStack;

#[test]
fn request_keeps_the_earliest_wake_up() {
    let mut cbs = TimedCallbacks::new();
    assert_eq!(cbs.request_callback(50, 'a', ControlFlow::Wait), ControlFlow::WaitUntil(50));
    assert_eq!(cbs.request_callback(80, 'b', ControlFlow::WaitUntil(50)), ControlFlow::WaitUntil(50));
    assert_eq!(cbs.request_callback(20, 'c', ControlFlow::WaitUntil(50)), ControlFlow::WaitUntil(20));
    assert_eq!(cbs.request_callback(20, 'd', ControlFlow::WaitUntil(20)), ControlFlow::WaitUntil(20));
    assert_eq!(cbs.request_callback(90, 'e', ControlFlow::Poll), ControlFlow::WaitUntil(90));
    assert_eq!(cbs.len(), 5);
}

#[test]
fn due_callbacks_are_taken_and_the_loop_waits_for_the_rest() {
    let mut cbs = TimedCallbacks::new();
    for (t, c) in [(10u64, 'a'), (30, 'b'), (5, 'c'), (40, 'd'), (30, 'e')] {
        cbs.request_callback(t, c, ControlFlow::Wait);
    }
    let (due, flow) = cbs.take_due(30);
    let mut names: Vec<char> = due.iter().map(|(_, c)| *c).collect();
    // Taking swaps the last callback into the place of each one taken.
    assert_eq!(names, vec!['a', 'e', 'b', 'c']);
    names.sort();
    assert_eq!(names, vec!['a', 'b', 'c', 'e']);
    assert!(due.iter().all(|(t, _)| *t <= 30));
    assert_eq!(flow, ControlFlow::WaitUntil(40));
    assert_eq!(cbs.len(), 1);
    let (due, flow) = cbs.take_due(100);
    assert_eq!(due, vec![(40, 'd')]);
    assert_eq!(flow, ControlFlow::Wait);
    let (due, flow) = cbs.take_due(100);
    assert!(due.is_empty());
    assert_eq!(flow, ControlFlow::Wait);
}

#[test]
fn callback_clock_keeps_the_earliest_time() {
    let mut clock = CallbackClock::new();
    assert_eq!(clock.next_callback_time(), None);
    assert_eq!(clock.control_flow(), ControlFlow::Wait);
    clock.request_callback_at(70);
    clock.request_callback_at(90);
    assert_eq!(clock.next_callback_time(), Some(70));
    clock.request_callback_at(60);
    assert_eq!(clock.control_flow(), ControlFlow::WaitUntil(60));
    clock.reset();
    assert_eq!(clock.next_callback_time(), None);
}

#[test]
fn registry_takes_due_callbacks_in_order_and_keeps_the_rest() {
    let mut reg = CallbackRegistry::new();
    assert_eq!(reg.next_callback_time(), None);
    let a = reg.register(5, 'a');
    let b = reg.register(12, 'b');
    let c = reg.register(10, 'c');
    let d = reg.register(30, 'd');
    let e = reg.register(11, 'e');
    assert_eq!((a, b, c, d, e), (0, 1, 2, 3, 4));
    assert_eq!(reg.next_callback_time(), Some(5));
    assert_eq!(reg.control_flow(), ControlFlow::WaitUntil(5));
    assert_eq!(reg.take_due(10), vec!['a', 'c']);
    assert_eq!(reg.len(), 3);
    assert_eq!(reg.next_callback_time(), Some(11));
    // A callback that was called can no longer be cancelled.
    assert!(!reg.cancel(a));
    assert!(reg.cancel(e));
    assert!(!reg.cancel(e));
    assert_eq!(reg.len(), 2);
    assert_eq!(reg.take_due(100), vec!['b', 'd']);
    assert_eq!(reg.next_callback_time(), None);
    assert_eq!(reg.control_flow(), ControlFlow::Wait);
    assert!(reg.take_due(100).is_empty());
    assert!(reg.can_register());
    assert_eq!(reg.register(1, 'f'), 5);
}

#[test]
fn cursor_stack_pushes_and_pops_by_id() {
    let mut stack = CursorStack::new();
    assert_eq!(stack.top(), None);
    let x = stack.push_cursor("arrow");
    let y = stack.push_cursor("hand");
    assert_eq!(stack.top(), Some(&"hand"));
    stack.pop_cursor(x);
    assert_eq!(stack.top(), Some(&"hand"));
    stack.pop_cursor(x);
    stack.pop_cursor(y);
    assert_eq!(stack.top(), None);
    assert!(stack.can_push());
    assert_eq!(stack.push_cursor("text"), 2);
}
