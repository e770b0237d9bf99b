use event_manager::codes::{KeyCode, MouseButton};
use event_manager::events::{AccessError, EventKind, VirtualEventKind};
use event_manager::geometry::{Rect, TreeGeometry};
use event_manager::manager::{intercept_unhandled, EventManager};

const NO_MODIFIERS: (bool, bool, bool, bool) = (false, false, false, false);

fn single_node_tree(node_id: u64, rect: Rect) -> TreeGeometry {
    let mut tree = TreeGeometry::new(0, 0);
    tree.push_node(node_id, rect);
    tree
}

#[test]
fn matching_key_binding_fires_once() {
    let mut manager = EventManager::new();
    manager.add_event_listener(3, EventKind::KeyDown, 11);
    manager.receive_key_event(VirtualEventKind::KeyPressed, (NO_MODIFIERS, KeyCode::KeyA));
    let tree = TreeGeometry::new(0, 0);

    let schedule = manager.intercept_events(&tree);
    assert_eq!(schedule.len(), 1);
    assert_eq!(schedule[0].listener, 11);
    assert_eq!(schedule[0].event.ty(), EventKind::KeyDown);
    assert_eq!(schedule[0].event.target(), 3);
    assert_eq!(schedule[0].event.code(), Ok(KeyCode::KeyA));
    assert_eq!(schedule[0].event.button(), Err(AccessError::NotAMouseEvent));
}

#[test]
fn binding_isolation_invokes_exactly_the_matching_listener() {
    let mut manager = EventManager::new();
    manager.add_event_listener(1, EventKind::Click, 100);
    manager.add_event_listener(2, EventKind::KeyDown, 200);
    manager.add_event_listener(3, EventKind::KeyUp, 300);
    manager.add_event_listener(4, EventKind::KeyPress, 400);
    manager.receive_key_event(VirtualEventKind::KeyReleased, (NO_MODIFIERS, KeyCode::Space));
    let tree = TreeGeometry::new(0, 0);

    let schedule = manager.intercept_events(&tree);
    assert_eq!(schedule.len(), 1);
    assert_eq!(schedule[0].listener, 300);
    assert_eq!(schedule[0].event.ty(), EventKind::KeyUp);
    assert_eq!(schedule[0].event.target(), 3);
}

#[test]
fn fan_out_fires_both_listeners_in_insertion_order() {
    let mut manager = EventManager::new();
    manager.add_event_listener(5, EventKind::KeyDown, 21);
    manager.add_event_listener(9, EventKind::MouseMove, 77);
    manager.add_event_listener(5, EventKind::KeyDown, 22);
    manager.receive_key_event(VirtualEventKind::KeyPressed, (NO_MODIFIERS, KeyCode::Enter));
    let tree = TreeGeometry::new(0, 0);

    let schedule = manager.intercept_events(&tree);
    assert_eq!(schedule.len(), 2);
    assert_eq!(schedule[0].listener, 21);
    assert_eq!(schedule[1].listener, 22);
    assert_eq!(schedule[0].event, schedule[1].event);
}

#[test]
fn removal_eliminates_only_the_exact_triple() {
    let mut manager = EventManager::new();
    manager.add_event_listener(5, EventKind::KeyDown, 21);
    manager.add_event_listener(5, EventKind::KeyDown, 22);
    manager.add_event_listener(5, EventKind::KeyUp, 21);
    manager.add_event_listener(6, EventKind::KeyDown, 21);
    manager.remove_event_listener(5, EventKind::KeyDown, 21);

    manager.receive_key_event(VirtualEventKind::KeyPressed, (NO_MODIFIERS, KeyCode::KeyB));
    manager.receive_key_event(VirtualEventKind::KeyReleased, (NO_MODIFIERS, KeyCode::KeyB));
    let tree = TreeGeometry::new(0, 0);

    let schedule = manager.intercept_events(&tree);
    assert_eq!(schedule.len(), 3);
    assert_eq!(schedule[0].listener, 22);
    assert_eq!(schedule[0].event.target(), 5);
    assert_eq!(schedule[1].listener, 21);
    assert_eq!(schedule[1].event.target(), 6);
    assert_eq!(schedule[2].listener, 21);
    assert_eq!(schedule[2].event.ty(), EventKind::KeyUp);
}

#[test]
fn removal_of_duplicates_eliminates_every_copy() {
    let mut manager = EventManager::new();
    manager.add_event_listener(5, EventKind::KeyDown, 21);
    manager.add_event_listener(5, EventKind::KeyDown, 21);
    manager.add_event_listener(5, EventKind::KeyDown, 22);
    manager.remove_event_listener(5, EventKind::KeyDown, 21);

    manager.receive_key_event(VirtualEventKind::KeyPressed, (NO_MODIFIERS, KeyCode::KeyC));
    let tree = TreeGeometry::new(0, 0);

    let schedule = manager.intercept_events(&tree);
    assert_eq!(schedule.len(), 1);
    assert_eq!(schedule[0].listener, 22);
}

#[test]
fn duplicate_bindings_fire_separately() {
    let mut manager = EventManager::new();
    manager.add_event_listener(5, EventKind::KeyDown, 21);
    manager.add_event_listener(5, EventKind::KeyDown, 21);
    manager.receive_key_event(VirtualEventKind::KeyPressed, (NO_MODIFIERS, KeyCode::KeyD));
    let tree = TreeGeometry::new(0, 0);

    let schedule = manager.intercept_events(&tree);
    assert_eq!(schedule.len(), 2);
    assert_eq!(schedule[0], schedule[1]);
}

#[test]
fn both_queues_are_drained_whatever_matched() {
    let mut manager = EventManager::new();
    manager.add_event_listener(1, EventKind::Click, 7);
    manager.receive_key_event(VirtualEventKind::KeyPressed, (NO_MODIFIERS, KeyCode::KeyE));
    manager.receive_mouse_event(
        VirtualEventKind::MouseClicked,
        (NO_MODIFIERS, MouseButton::Main, (50, 50)),
    );
    let tree = single_node_tree(1, Rect::new(0, 0, 100, 100));

    let first = manager.intercept_events(&tree);
    assert_eq!(first.len(), 1);

    let second = manager.intercept_events(&tree);
    assert!(second.is_empty());
}

#[test]
fn unmatched_event_is_consumed_silently() {
    let mut manager = EventManager::new();
    manager.add_event_listener(1, EventKind::Click, 7);
    manager.receive_key_event(VirtualEventKind::KeyPressed, (NO_MODIFIERS, KeyCode::KeyF));
    let tree = TreeGeometry::new(0, 0);

    let schedule = manager.intercept_events(&tree);
    assert!(schedule.is_empty());
    let unhandled = intercept_unhandled(&schedule, &Vec::new());
    assert!(unhandled.is_empty());

    let again = manager.intercept_events(&tree);
    assert!(again.is_empty());
}

#[test]
fn declined_event_reaches_the_interceptor_exactly_once() {
    let mut manager = EventManager::new();
    manager.add_event_listener(3, EventKind::KeyDown, 11);
    manager.receive_key_event(VirtualEventKind::KeyPressed, (NO_MODIFIERS, KeyCode::KeyG));
    let tree = TreeGeometry::new(0, 0);

    let schedule = manager.intercept_events(&tree);
    assert_eq!(schedule.len(), 1);

    let unhandled = intercept_unhandled(&schedule, &vec![false]);
    assert_eq!(unhandled.len(), 1);
    assert_eq!(unhandled[0], schedule[0].event);

    let consumed = intercept_unhandled(&schedule, &vec![true]);
    assert!(consumed.is_empty());
}

#[test]
fn mixed_verdicts_forward_the_declined_events_in_order() {
    let mut manager = EventManager::new();
    manager.add_event_listener(3, EventKind::KeyDown, 11);
    manager.add_event_listener(3, EventKind::KeyDown, 12);
    manager.add_event_listener(3, EventKind::KeyDown, 13);
    manager.receive_key_event(VirtualEventKind::KeyPressed, (NO_MODIFIERS, KeyCode::KeyH));
    let tree = TreeGeometry::new(0, 0);

    let schedule = manager.intercept_events(&tree);
    assert_eq!(schedule.len(), 3);

    let unhandled = intercept_unhandled(&schedule, &vec![false, true, false]);
    assert_eq!(unhandled.len(), 2);
    assert_eq!(unhandled[0], schedule[0].event);
    assert_eq!(unhandled[1], schedule[2].event);
}

#[test]
fn mouse_hit_computes_client_and_offset_positions() {
    let mut manager = EventManager::new();
    manager.add_event_listener(1, EventKind::Click, 55);
    manager.receive_mouse_event(
        VirtualEventKind::MouseClicked,
        ((true, false, false, true), MouseButton::Main, (50, 50)),
    );
    let tree = single_node_tree(1, Rect::new(0, 0, 100, 100));

    let schedule = manager.intercept_events(&tree);
    assert_eq!(schedule.len(), 1);
    let event = schedule[0].event;
    assert_eq!(schedule[0].listener, 55);
    assert_eq!(event.ty(), EventKind::Click);
    assert_eq!(event.target(), 1);
    assert_eq!(event.button(), Ok(MouseButton::Main));
    assert_eq!(event.page_x(), Ok(50));
    assert_eq!(event.page_y(), Ok(50));
    assert_eq!(event.client_x(), Ok(50));
    assert_eq!(event.client_y(), Ok(50));
    assert_eq!(event.offset_x(), Ok(50));
    assert_eq!(event.offset_y(), Ok(50));
    assert!(event.alt_key());
    assert!(!event.ctrl_key());
    assert!(!event.meta_key());
    assert!(event.shift_key());
    assert_eq!(event.code(), Err(AccessError::NotAKeyEvent));
}

#[test]
fn mouse_miss_invokes_nobody_and_intercepts_nothing() {
    let mut manager = EventManager::new();
    manager.add_event_listener(1, EventKind::Click, 55);
    manager.receive_mouse_event(
        VirtualEventKind::MouseClicked,
        (NO_MODIFIERS, MouseButton::Main, (200, 200)),
    );
    let tree = single_node_tree(1, Rect::new(0, 0, 100, 100));

    let schedule = manager.intercept_events(&tree);
    assert!(schedule.is_empty());
    let unhandled = intercept_unhandled(&schedule, &Vec::new());
    assert!(unhandled.is_empty());

    let again = manager.intercept_events(&tree);
    assert!(again.is_empty());
}

#[test]
fn mouse_hit_on_the_rectangle_edge_fires() {
    let mut manager = EventManager::new();
    manager.add_event_listener(1, EventKind::Click, 55);
    manager.add_event_listener(1, EventKind::Click, 56);
    manager.receive_mouse_event(
        VirtualEventKind::MouseClicked,
        (NO_MODIFIERS, MouseButton::Main, (100, 100)),
    );
    manager.receive_mouse_event(
        VirtualEventKind::MouseClicked,
        (NO_MODIFIERS, MouseButton::Main, (101, 100)),
    );
    let tree = single_node_tree(1, Rect::new(0, 0, 100, 100));

    let schedule = manager.intercept_events(&tree);
    assert_eq!(schedule.len(), 2);
    assert_eq!(schedule[0].listener, 55);
    assert_eq!(schedule[1].listener, 56);
    assert_eq!(schedule[0].event.page_x(), Ok(100));
    assert_eq!(schedule[1].event.page_x(), Ok(100));
}

#[test]
fn hit_testing_is_per_binding_target() {
    let mut manager = EventManager::new();
    manager.add_event_listener(1, EventKind::Click, 61);
    manager.add_event_listener(2, EventKind::Click, 62);
    manager.receive_mouse_event(
        VirtualEventKind::MouseClicked,
        (NO_MODIFIERS, MouseButton::Main, (75, 75)),
    );
    let mut tree = TreeGeometry::new(0, 0);
    tree.push_node(1, Rect::new(0, 0, 100, 100));
    tree.push_node(2, Rect::new(80, 80, 160, 160));

    let schedule = manager.intercept_events(&tree);
    assert_eq!(schedule.len(), 1);
    assert_eq!(schedule[0].listener, 61);
}

#[test]
fn unknown_target_rectangle_means_a_miss() {
    let mut manager = EventManager::new();
    manager.add_event_listener(9, EventKind::Click, 70);
    manager.receive_mouse_event(
        VirtualEventKind::MouseClicked,
        (NO_MODIFIERS, MouseButton::Main, (10, 10)),
    );
    let tree = single_node_tree(1, Rect::new(0, 0, 100, 100));

    let schedule = manager.intercept_events(&tree);
    assert!(schedule.is_empty());
}

#[test]
fn key_events_ignore_geometry() {
    let mut manager = EventManager::new();
    manager.add_event_listener(9, EventKind::KeyDown, 80);
    manager.receive_key_event(VirtualEventKind::KeyPressed, (NO_MODIFIERS, KeyCode::KeyI));
    let tree = TreeGeometry::new(0, 0);

    let schedule = manager.intercept_events(&tree);
    assert_eq!(schedule.len(), 1);
    assert_eq!(schedule[0].listener, 80);
}

#[test]
fn key_queue_drains_before_the_mouse_queue() {
    let mut manager = EventManager::new();
    manager.add_event_listener(1, EventKind::Click, 90);
    manager.add_event_listener(1, EventKind::KeyDown, 91);
    manager.receive_mouse_event(
        VirtualEventKind::MouseClicked,
        (NO_MODIFIERS, MouseButton::Main, (50, 50)),
    );
    manager.receive_key_event(VirtualEventKind::KeyPressed, (NO_MODIFIERS, KeyCode::KeyJ));
    let tree = single_node_tree(1, Rect::new(0, 0, 100, 100));

    let schedule = manager.intercept_events(&tree);
    assert_eq!(schedule.len(), 2);
    assert_eq!(schedule[0].listener, 91);
    assert_eq!(schedule[1].listener, 90);
}

#[test]
fn oversized_node_identifier_resolves_to_the_default_target() {
    let big: u64 = (u32::MAX as u64) + 5;
    let mut manager = EventManager::new();
    manager.add_event_listener(big, EventKind::KeyDown, 95);
    manager.receive_key_event(VirtualEventKind::KeyPressed, (NO_MODIFIERS, KeyCode::KeyK));
    let tree = TreeGeometry::new(0, 0);

    let schedule = manager.intercept_events(&tree);
    assert_eq!(schedule.len(), 1);
    assert_eq!(schedule[0].event.target(), 0);
}

#[test]
fn viewport_origin_shifts_the_client_position() {
    let mut manager = EventManager::new();
    manager.add_event_listener(1, EventKind::Click, 31);
    manager.receive_mouse_event(
        VirtualEventKind::MouseClicked,
        (NO_MODIFIERS, MouseButton::Aux, (60, 80)),
    );
    let mut tree = TreeGeometry::new(10, 20);
    tree.push_node(1, Rect::new(40, 40, 140, 140));

    let schedule = manager.intercept_events(&tree);
    assert_eq!(schedule.len(), 1);
    let event = schedule[0].event;
    assert_eq!(event.page_x(), Ok(60));
    assert_eq!(event.page_y(), Ok(80));
    assert_eq!(event.client_x(), Ok(50));
    assert_eq!(event.client_y(), Ok(60));
    assert_eq!(event.offset_x(), Ok(20));
    assert_eq!(event.offset_y(), Ok(40));
}

#[test]
fn broadcast_events_returns_the_same_schedule() {
    let tree = single_node_tree(1, Rect::new(0, 0, 100, 100));

    let mut first = EventManager::new();
    first.add_event_listener(1, EventKind::Click, 7);
    first.receive_mouse_event(
        VirtualEventKind::MouseClicked,
        (NO_MODIFIERS, MouseButton::Main, (50, 50)),
    );
    let via_broadcast = first.broadcast_events(&tree);

    let mut second = EventManager::new();
    second.add_event_listener(1, EventKind::Click, 7);
    second.receive_mouse_event(
        VirtualEventKind::MouseClicked,
        (NO_MODIFIERS, MouseButton::Main, (50, 50)),
    );
    let via_intercept = second.intercept_events(&tree);

    assert_eq!(via_broadcast, via_intercept);
    assert!(first.broadcast_events(&tree).is_empty());
}

#[test]
fn default_manager_behaves_like_a_fresh_one() {
    let mut manager = EventManager::default();
    let tree = TreeGeometry::new(0, 0);
    assert!(manager.intercept_events(&tree).is_empty());
}
