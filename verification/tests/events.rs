use event_manager::codes::{KeyCode, MouseButton};
use event_manager::events::{
    AccessError, BaseEvent, Event, EventKind, KeyEvent, MouseEvent, VirtualEventKind,
};

fn sample_key_event() -> Event {
    let base = BaseEvent::new(EventKind::KeyDown, 42, (true, false, true, false));
    KeyEvent::new(base, KeyCode::KeyQ).into_generic()
}

fn sample_mouse_event() -> Event {
    let base = BaseEvent::new(EventKind::Click, 7, (false, true, false, true));
    MouseEvent::new(base, MouseButton::Secondary, (120, 130), (20, 30), (5, 6)).into_generic()
}

#[test]
fn virtual_kinds_synthesize_into_their_ui_kinds() {
    assert_eq!(VirtualEventKind::MouseClicked.ui_kind(), EventKind::Click);
    assert_eq!(VirtualEventKind::MouseDoubleClicked.ui_kind(), EventKind::DoubleClick);
    assert_eq!(VirtualEventKind::MousePressed.ui_kind(), EventKind::MouseDown);
    assert_eq!(VirtualEventKind::MouseReleased.ui_kind(), EventKind::MouseUp);
    assert_eq!(VirtualEventKind::MouseMoved.ui_kind(), EventKind::MouseMove);
    assert_eq!(VirtualEventKind::KeyPressed.ui_kind(), EventKind::KeyDown);
    assert_eq!(VirtualEventKind::KeyReleased.ui_kind(), EventKind::KeyUp);
    assert_eq!(VirtualEventKind::KeyTyped.ui_kind(), EventKind::KeyPress);
}

#[test]
fn shared_accessors_answer_on_both_variants() {
    let key = sample_key_event();
    assert_eq!(key.ty(), EventKind::KeyDown);
    assert_eq!(key.target(), 42);
    assert!(key.alt_key());
    assert!(!key.ctrl_key());
    assert!(key.meta_key());
    assert!(!key.shift_key());

    let mouse = sample_mouse_event();
    assert_eq!(mouse.ty(), EventKind::Click);
    assert_eq!(mouse.target(), 7);
    assert!(!mouse.alt_key());
    assert!(mouse.ctrl_key());
    assert!(!mouse.meta_key());
    assert!(mouse.shift_key());
}

#[test]
fn key_accessor_answers_on_the_key_variant_only() {
    assert_eq!(sample_key_event().code(), Ok(KeyCode::KeyQ));
    assert_eq!(sample_mouse_event().code(), Err(AccessError::NotAKeyEvent));
}

#[test]
fn unsupported_key_accessors_fail_loudly() {
    let key = sample_key_event();
    assert_eq!(key.key(), Err(AccessError::NotSupported));
    assert_eq!(key.get_modifier_state(), Err(AccessError::NotSupported));
    assert_eq!(key.repeat(), Err(AccessError::NotSupported));

    let mouse = sample_mouse_event();
    assert_eq!(mouse.key(), Err(AccessError::NotAKeyEvent));
    assert_eq!(mouse.get_modifier_state(), Err(AccessError::NotAKeyEvent));
    assert_eq!(mouse.repeat(), Err(AccessError::NotAKeyEvent));
}

#[test]
fn mouse_accessors_answer_on_the_mouse_variant_only() {
    let mouse = sample_mouse_event();
    assert_eq!(mouse.button(), Ok(MouseButton::Secondary));
    assert_eq!(mouse.page_x(), Ok(120));
    assert_eq!(mouse.page_y(), Ok(130));
    assert_eq!(mouse.client_x(), Ok(20));
    assert_eq!(mouse.client_y(), Ok(30));
    assert_eq!(mouse.offset_x(), Ok(5));
    assert_eq!(mouse.offset_y(), Ok(6));

    let key = sample_key_event();
    assert_eq!(key.button(), Err(AccessError::NotAMouseEvent));
    assert_eq!(key.page_x(), Err(AccessError::NotAMouseEvent));
    assert_eq!(key.page_y(), Err(AccessError::NotAMouseEvent));
    assert_eq!(key.client_x(), Err(AccessError::NotAMouseEvent));
    assert_eq!(key.client_y(), Err(AccessError::NotAMouseEvent));
    assert_eq!(key.offset_x(), Err(AccessError::NotAMouseEvent));
    assert_eq!(key.offset_y(), Err(AccessError::NotAMouseEvent));
}

#[test]
fn key_event_unsupported_accessors_fail_loudly_directly() {
    let base = BaseEvent::new(EventKind::KeyPress, 8, (false, false, false, false));
    let key = KeyEvent::new(base, KeyCode::Enter);
    assert_eq!(key.code(), KeyCode::Enter);
    assert_eq!(key.key(), Err(AccessError::NotSupported));
    assert_eq!(key.get_modifier_state(), Err(AccessError::NotSupported));
    assert_eq!(key.repeat(), Err(AccessError::NotSupported));
    assert_eq!(key.ty(), EventKind::KeyPress);
    assert_eq!(key.target(), 8);
}

#[test]
fn mouse_event_accessors_answer_directly() {
    let base = BaseEvent::new(EventKind::MouseMove, 4, (false, false, true, false));
    let mouse = MouseEvent::new(base, MouseButton::Fifth, (9, 8), (7, 6), (5, 4));
    assert_eq!(mouse.button(), MouseButton::Fifth);
    assert_eq!(mouse.page_x(), 9);
    assert_eq!(mouse.page_y(), 8);
    assert_eq!(mouse.client_x(), 7);
    assert_eq!(mouse.client_y(), 6);
    assert_eq!(mouse.offset_x(), 5);
    assert_eq!(mouse.offset_y(), 4);
    assert!(mouse.meta_key());
}

#[test]
fn base_event_keeps_what_it_was_built_from() {
    let base = BaseEvent::new(EventKind::MouseUp, 9, (true, true, false, false));
    assert_eq!(base.ty(), EventKind::MouseUp);
    assert_eq!(base.target(), 9);
    assert!(base.alt_key());
    assert!(base.ctrl_key());
    assert!(!base.meta_key());
    assert!(!base.shift_key());
}
