use kui::canvas::plan_rebuild;
use kui::element::EventResult;
use kui::event::EventResult as ToolkitEventResult;
use kui::event_loop::EventHandler;
use kui::events::{event_reaches_child, CatchEvent, HookEvents};
use kui::hooks::HookEvent;
use kui::lazy_linear_layout::{missing_indices, retain_visible, ChildEntry};
use kui::shapes::{Rect, ShapeElement};
use kui::with_cursor::{cursor_moved, CursorAction};

fn entries(indices: &[usize]) -> Vec<ChildEntry<char>> {
    indices
        .iter()
        .map(|&i| ChildEntry { index: i, element: (b'a' + i as u8) as char })
        .collect()
}

#[test]
fn only_visible_children_are_kept_in_order() {
    let kept = retain_visible(entries(&[7, 2, 3, 9, 5, 6, 1]), 3, 3);
    let idx: Vec<usize> = kept.iter().map(|c| c.index).collect();
    // The child right after the visible range is kept too.
    assert_eq!(idx, vec![3, 5, 6]);
    assert_eq!(kept[1].element, 'f');
    assert!(retain_visible(entries(&[]), 0, 4).is_empty());
    let kept = retain_visible(entries(&[0, 1, 4, 5]), 0, 4);
    assert_eq!(kept.iter().map(|c| c.index).collect::<Vec<_>>(), vec![0, 1, 4]);
}

#[test]
fn missing_children_are_created_in_order() {
    let kept = entries(&[3, 5, 6]);
    assert_eq!(missing_indices(&kept, 3, 3), vec![4]);
    assert_eq!(missing_indices(&kept, 0, 4), vec![0, 1, 2]);
    assert_eq!(missing_indices(&entries(&[]), 2, 3), vec![2, 3, 4]);
    assert!(missing_indices(&kept, 9, 0).is_empty());
}

#[test]
fn canvas_places_dirty_children_or_all_after_a_move() {
    let mut origin_changed = false;
    let mut dirty = vec![true, false, true];
    assert_eq!(plan_rebuild(&mut origin_changed, &mut dirty), vec![true, false, true]);
    assert_eq!(dirty, vec![false, false, false]);
    let mut origin_changed = true;
    let mut dirty = vec![false, true];
    assert_eq!(plan_rebuild(&mut origin_changed, &mut dirty), vec![true, true]);
    assert!(!origin_changed);
    assert_eq!(plan_rebuild(&mut origin_changed, &mut dirty), vec![false, false]);
}

#[test]
fn cursor_is_pushed_on_enter_and_popped_on_leave() {
    let mut hovered = false;
    assert_eq!(cursor_moved(&mut hovered, false), CursorAction::Keep);
    assert_eq!(cursor_moved(&mut hovered, true), CursorAction::Push);
    assert!(hovered);
    assert_eq!(cursor_moved(&mut hovered, true), CursorAction::Keep);
    assert_eq!(cursor_moved(&mut hovered, false), CursorAction::Pop);
    assert!(!hovered);
}

#[test]
fn shape_hits() {
    let s = ShapeElement { shape: Rect, draw: (), clip: (), block_all_hits: true, child: 3u8 };
    assert!(s.block_all_hits);
    assert!(s.hit(true, false, false));
    assert!(!s.hit(false, true, true));
    let s = s.with_no_block_hits().with_child("child");
    assert!(!s.block_all_hits);
    assert_eq!(s.child, "child");
    assert!(s.hit(false, true, true));
    assert!(!s.hit(true, false, true));
    assert!(!s.hit(true, true, false));
}

#[test]
fn new_shape_blocks_all_hits() {
    let s: ShapeElement<Rect, (), (), ()> = ShapeElement::new();
    assert!(s.block_all_hits);
    assert!(s.hit(true, false, false));
    assert!(!s.hit(false, true, true));
}

#[test]
fn hooks_let_events_through_unless_stopped() {
    assert!(event_reaches_child(None));
    assert!(event_reaches_child(Some(EventResult::Continue)));
    assert!(!event_reaches_child(Some(EventResult::StopPropagation)));
    let h = HookEvents::new(1u8, 'c');
    assert_eq!((h.on_event, h.child), (1, 'c'));
    let c: CatchEvent<u32, u8, char> = CatchEvent::new(2, 'd');
    assert_eq!((c.on_event, c.child), (2, 'd'));
    let k = HookEvent::new(0u8, ()).on_event("f").child(9i64);
    assert_eq!((k.on_event, k.child), ("f", 9));
}

#[test]
fn event_results() {
    assert!(ToolkitEventResult::Handled.is_handled());
    assert!(!ToolkitEventResult::Continue.is_handled());
    assert!(EventResult::StopPropagation.should_stop_propagation());
    assert!(!EventResult::StopPropagation.should_continue());
    assert!(EventResult::Continue.should_continue());
    assert!(!EventResult::Continue.should_stop_propagation());
}

#[test]
fn event_handler_hands_out_the_init_fn_once() {
    let mut h: EventHandler<&str, u32> = EventHandler::new("init");
    assert_eq!(h.can_create_surfaces(), Some("init"));
    assert!(matches!(h, EventHandler::Initializing));
    h.finish_initialization(42);
    assert_eq!(h.can_create_surfaces(), None);
    assert!(matches!(h, EventHandler::Initialized(42)));
    let mut h: EventHandler<u8, u8> = EventHandler::new(3);
    assert_eq!(h.take_user_init_fn(), 3);
    assert!(matches!(h, EventHandler::Initializing));
}
