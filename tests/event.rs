use ratzilla::event::{pointer_event_to_mouse_event, MouseEvent, PointerEventType, event_type_to_kind, scroll_delta, wheel_kind, KeyCode, KeyEvent, MouseButton, MouseEventKind, ScrollDelta};

#[test]
fn key_names_decode() {
    assert_eq!(KeyCode::from_key("a"), KeyCode::Char('a'));
    assert_eq!(KeyCode::from_key(" "), KeyCode::Char(' '));
    assert_eq!(KeyCode::from_key("F1"), KeyCode::F(1));
    assert_eq!(KeyCode::from_key("F12"), KeyCode::F(12));
    assert_eq!(KeyCode::from_key("ArrowLeft"), KeyCode::Left);
    assert_eq!(KeyCode::from_key("Escape"), KeyCode::Esc);
    assert_eq!(KeyCode::from_key("PageDown"), KeyCode::PageDown);
    assert_eq!(KeyCode::from_key("é"), KeyCode::Unidentified);
    assert_eq!(KeyCode::from_key("Shift"), KeyCode::Unidentified);
    assert_eq!(KeyCode::from_key(""), KeyCode::Unidentified);
}

#[test]
fn key_event_keeps_modifiers() {
    let e = KeyEvent::new("Enter", true, false, true);
    assert_eq!(e, KeyEvent { code: KeyCode::Enter, ctrl: true, alt: false, shift: true });
}

#[test]
fn mouse_buttons_decode() {
    assert_eq!(MouseButton::from_code(0), MouseButton::Left);
    assert_eq!(MouseButton::from_code(1), MouseButton::Middle);
    assert_eq!(MouseButton::from_code(2), MouseButton::Right);
    assert_eq!(MouseButton::from_code(3), MouseButton::Back);
    assert_eq!(MouseButton::from_code(4), MouseButton::Forward);
    assert_eq!(MouseButton::from_code(-1), MouseButton::Unidentified);
}

#[test]
fn event_types_decode() {
    let b = MouseButton::Right;
    assert_eq!(event_type_to_kind("mousemove", b), MouseEventKind::Moved);
    assert_eq!(event_type_to_kind("mousedown", b), MouseEventKind::ButtonDown(b));
    assert_eq!(event_type_to_kind("mouseup", b), MouseEventKind::ButtonUp(b));
    assert_eq!(event_type_to_kind("click", b), MouseEventKind::SingleClick(b));
    assert_eq!(event_type_to_kind("dblclick", b), MouseEventKind::DoubleClick(b));
    assert_eq!(event_type_to_kind("mouseenter", b), MouseEventKind::Entered);
    assert_eq!(event_type_to_kind("mouseleave", b), MouseEventKind::Exited);
    assert_eq!(event_type_to_kind("wheel", b), MouseEventKind::Unidentified);
}

#[test]
fn scroll_steps() {
    assert_eq!(ScrollDelta::Pixels(250).to_steps(), 2);
    assert_eq!(ScrollDelta::Pixels(-150).to_steps(), -1);
    assert_eq!(ScrollDelta::Pixels(99).to_steps(), 0);
    assert_eq!(ScrollDelta::Lines(-3).to_steps(), -3);
    assert_eq!(ScrollDelta::Pages(2).to_steps(), 20);
}

#[test]
fn wheel_direction_follows_larger_step_count() {
    assert_eq!(scroll_delta(7, 5), ScrollDelta::Pixels(5));
    assert_eq!(wheel_kind(1, -4, 2), MouseEventKind::ScrolledHorizontal(ScrollDelta::Lines(-4)));
    assert_eq!(wheel_kind(1, 2, 2), MouseEventKind::ScrolledVertical(ScrollDelta::Lines(2)));
    assert_eq!(wheel_kind(0, 150, 99), MouseEventKind::ScrolledHorizontal(ScrollDelta::Pixels(150)));
    assert_eq!(wheel_kind(0, 90, 0), MouseEventKind::ScrolledVertical(ScrollDelta::Pixels(0)));
    assert_eq!(wheel_kind(2, 0, -1), MouseEventKind::ScrolledVertical(ScrollDelta::Pages(-1)));
}

#[test]
fn renderer_pointer_events_map_to_mouse_events() {
    let e = pointer_event_to_mouse_event(PointerEventType::MouseUp, 0, 4, 7, true, false, false);
    assert_eq!(
        e,
        MouseEvent { kind: MouseEventKind::ButtonUp(MouseButton::Left), col: 4, row: 7, ctrl: true, alt: false, shift: false }
    );
    let m = pointer_event_to_mouse_event(PointerEventType::MouseMove, 2, 1, 1, false, false, true);
    assert_eq!(m.kind, MouseEventKind::Moved);
    let d = pointer_event_to_mouse_event(PointerEventType::MouseDown, 9, 0, 0, false, false, false);
    assert_eq!(d.kind, MouseEventKind::ButtonDown(MouseButton::Unidentified));
}
