use event_manager::codes::{KeyCode, MouseButton};

#[test]
fn key_code_ordinals_are_stable() {
    assert_eq!(KeyCode::Unidentified.id(), 0);
    assert_eq!(KeyCode::Backquote.id(), 1);
    assert_eq!(KeyCode::Digit0.id(), 6);
    assert_eq!(KeyCode::KeyA.id(), 20);
    assert_eq!(KeyCode::Space.id(), 63);
    assert_eq!(KeyCode::ArrowUp.id(), 83);
    assert_eq!(KeyCode::Escape.id(), 115);
    assert_eq!(KeyCode::F12.id(), 127);
    assert_eq!(KeyCode::WakeUp.id(), 154);
}

#[test]
fn key_code_round_trips_through_its_ordinal() {
    let samples = vec![
        KeyCode::Unidentified,
        KeyCode::Backquote,
        KeyCode::KeyZ,
        KeyCode::Tab,
        KeyCode::NumpadEnter,
        KeyCode::F1,
        KeyCode::MediaPlayPause,
        KeyCode::WakeUp,
    ];
    for code in samples {
        assert_eq!(KeyCode::from_id(code.id()), Some(code));
    }
}

#[test]
fn key_code_from_id_rejects_unassigned_ordinals() {
    assert_eq!(KeyCode::from_id(155), None);
    assert_eq!(KeyCode::from_id(200), None);
    assert_eq!(KeyCode::from_id(255), None);
}

#[test]
fn mouse_button_ordinals_are_stable() {
    assert_eq!(MouseButton::Main.id(), 0);
    assert_eq!(MouseButton::Aux.id(), 1);
    assert_eq!(MouseButton::Secondary.id(), 2);
    assert_eq!(MouseButton::Fourth.id(), 3);
    assert_eq!(MouseButton::Fifth.id(), 4);
}

#[test]
fn mouse_button_round_trips_through_its_ordinal() {
    let samples = vec![
        MouseButton::Main,
        MouseButton::Aux,
        MouseButton::Secondary,
        MouseButton::Fourth,
        MouseButton::Fifth,
    ];
    for button in samples {
        assert_eq!(MouseButton::from_id(button.id()), Some(button));
    }
}

#[test]
fn mouse_button_from_id_rejects_unassigned_ordinals() {
    assert_eq!(MouseButton::from_id(5), None);
    assert_eq!(MouseButton::from_id(255), None);
}
