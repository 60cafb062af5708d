use icy_browser::engines::ultralight::{
    blank_pixels, cursor_interaction, iced_key_to_ultralight_key, keyboard_event_to_key_event,
    mouse_event_action, scroll_pixels, Cursor, KeyEventType, KeyPress, MouseAction, MouseEventType,
    Platform, ViewMouseButton, VirtualKeyCode,
};
use icy_browser::input::{
    Interaction, Key, KeyboardEvent, Location, Modifiers, MouseButton, MouseEvent, NamedKey, Point,
    ScrollDelta,
};
use icy_browser::shortcut::{shortcut_pressed, Shortcut, ShortcutModifier};

fn ctrl() -> Modifiers {
    Modifiers { control: true, ..Modifiers::default() }
}

#[test]
fn shortcut_needs_modifier_and_key() {
    let s = Shortcut::new(1u8, ShortcutModifier::Ctrl, "t");
    assert!(s.is_pressed(&Key::Character("t".into()), &ctrl()));
    assert!(!s.is_pressed(&Key::Character("e".into()), &ctrl()));
    assert!(!s.is_pressed(&Key::Character("t".into()), &Modifiers::default()));
    // a named key, the modifier itself among them, does not fire it
    assert!(!s.is_pressed(&Key::Named(NamedKey::Enter), &ctrl()));
    assert!(!s.is_pressed(&Key::Named(NamedKey::Control), &ctrl()));
    assert!(!s.is_pressed(&Key::Unidentified, &ctrl()));
    assert_eq!(*s.action(), 1u8);
    let alt = Shortcut::new(2u8, ShortcutModifier::Alt, "x");
    let m = Modifiers { alt: true, ..Modifiers::default() };
    assert!(shortcut_pressed(&alt, &Key::Character("x".into()), &m));
    let shift = Shortcut::new(3u8, ShortcutModifier::Shift, "x");
    assert!(!shortcut_pressed(&shift, &Key::Character("x".into()), &m));
}

#[test]
fn letter_key_codes() {
    let e = iced_key_to_ultralight_key(
        Platform::Unix,
        KeyPress::Press,
        Some(Key::Character("a".into())),
        Some(Key::Character("a".into())),
        Some(Location::Standard),
        Modifiers::default(),
        Some("a".into()),
    )
    .unwrap();
    assert_eq!(e.virtual_key_code, VirtualKeyCode::A);
    assert_eq!(e.native_key_code, 30);
    assert_eq!(e.ty, KeyEventType::Char);
    assert_eq!(e.text, "a");
    assert_eq!(e.unmodified_text, "a");
    let w = iced_key_to_ultralight_key(
        Platform::Windows,
        KeyPress::Press,
        None,
        Some(Key::Character("a".into())),
        None,
        Modifiers::default(),
        None,
    )
    .unwrap();
    assert_eq!(w.native_key_code, 65);
    assert_eq!(w.ty, KeyEventType::RawKeyDown);
    assert_eq!(w.text, "");
}

#[test]
fn control_makes_raw_key_down() {
    let e = iced_key_to_ultralight_key(
        Platform::Unix,
        KeyPress::Press,
        Some(Key::Character("V".into())),
        Some(Key::Character("v".into())),
        None,
        ctrl(),
        Some("v".into()),
    )
    .unwrap();
    assert_eq!(e.ty, KeyEventType::RawKeyDown);
    assert!(e.modifiers.ctrl);
    assert_eq!(e.unmodified_text, "V");
    assert_eq!(e.virtual_key_code, VirtualKeyCode::V);
}

#[test]
fn named_keys_and_release() {
    let space = iced_key_to_ultralight_key(
        Platform::Unix,
        KeyPress::Press,
        None,
        Some(Key::Named(NamedKey::Space)),
        None,
        Modifiers::default(),
        None,
    )
    .unwrap();
    assert_eq!(space.text, " ");
    assert_eq!(space.ty, KeyEventType::Char);
    assert_eq!(space.native_key_code, 57);
    let up = iced_key_to_ultralight_key(
        Platform::Unix,
        KeyPress::Unpress,
        None,
        Some(Key::Named(NamedKey::Enter)),
        None,
        Modifiers::default(),
        None,
    )
    .unwrap();
    assert_eq!(up.ty, KeyEventType::KeyUp);
    assert_eq!(up.virtual_key_code, VirtualKeyCode::Return);
    assert_eq!(up.native_key_code, 28);
}

#[test]
fn unknown_keys_give_nothing() {
    for key in [Key::Unidentified, Key::Named(NamedKey::Other), Key::Character("é".into()), Key::Character("ab".into())] {
        assert!(iced_key_to_ultralight_key(
            Platform::Unix,
            KeyPress::Press,
            None,
            Some(key),
            None,
            Modifiers::default(),
            None
        )
        .is_none());
    }
    assert!(iced_key_to_ultralight_key(Platform::Unix, KeyPress::Press, None, None, None, Modifiers::default(), None).is_none());
}

#[test]
fn keyboard_events_dispatch() {
    let pressed = KeyboardEvent::KeyPressed {
        key: Key::Character("1".into()),
        modified_key: Key::Character("!".into()),
        location: Location::Standard,
        modifiers: Modifiers::default(),
        text: Some("!".into()),
    };
    let e = keyboard_event_to_key_event(Platform::Unix, pressed).unwrap();
    assert_eq!(e.virtual_key_code, VirtualKeyCode::Key1);
    assert_eq!(e.native_key_code, 2);
    assert_eq!(e.text, "!");
    let released = KeyboardEvent::KeyReleased {
        key: Key::Character("1".into()),
        location: Location::Standard,
        modifiers: Modifiers::default(),
    };
    assert_eq!(keyboard_event_to_key_event(Platform::Unix, released).unwrap().ty, KeyEventType::KeyUp);
    assert!(keyboard_event_to_key_event(Platform::Unix, KeyboardEvent::ModifiersChanged(ctrl())).is_none());
}

#[test]
fn mouse_events_map_to_view_actions() {
    let p = Point { x: 3, y: 4 };
    assert_eq!(
        mouse_event_action(p, MouseEvent::ButtonPressed(MouseButton::Left)),
        MouseAction::Fire { kind: MouseEventType::MouseDown, x: 3, y: 4, button: ViewMouseButton::Left }
    );
    assert_eq!(
        mouse_event_action(p, MouseEvent::ButtonReleased(MouseButton::Right)),
        MouseAction::Fire { kind: MouseEventType::MouseUp, x: 3, y: 4, button: ViewMouseButton::Right }
    );
    assert_eq!(
        mouse_event_action(p, MouseEvent::CursorMoved { position: Point { x: 9, y: 9 } }),
        MouseAction::Fire { kind: MouseEventType::MouseMoved, x: 3, y: 4, button: ViewMouseButton::NoButton }
    );
    assert_eq!(mouse_event_action(p, MouseEvent::ButtonPressed(MouseButton::Middle)), MouseAction::Ignore);
    assert_eq!(mouse_event_action(p, MouseEvent::CursorLeft), MouseAction::Unfocus);
    assert_eq!(mouse_event_action(p, MouseEvent::CursorEntered), MouseAction::Focus);
    let d = ScrollDelta::Lines { x: 0, y: -1 };
    assert_eq!(mouse_event_action(p, MouseEvent::WheelScrolled { delta: d }), MouseAction::Scroll(d));
}

#[test]
fn scrolling_is_a_hundred_pixels_a_line() {
    assert_eq!(scroll_pixels(ScrollDelta::Lines { x: 1, y: -2 }), (100, -200));
    assert_eq!(scroll_pixels(ScrollDelta::Pixels { x: 5, y: 7 }), (5, 7));
}

#[test]
fn cursors() {
    assert_eq!(cursor_interaction(Cursor::Hand), Interaction::Pointer);
    assert_eq!(cursor_interaction(Cursor::Pointer), Interaction::Idle);
    assert_eq!(cursor_interaction(Cursor::IBeam), Interaction::Text);
    assert_eq!(cursor_interaction(Cursor::ZoomOut), Interaction::ZoomIn);
    assert_eq!(cursor_interaction(Cursor::Other), Interaction::Pointer);
}

#[test]
fn blank_pixels_are_white() {
    let p = blank_pixels(3, 2);
    assert_eq!(p, vec![255; 6]);
}
