//! How keyboard and mouse input reaches an Ultralight (WebKit) view: the key codes,
//! texts and event kinds of key events, the mouse events and scrolling, and the cursor.
use vstd::prelude::*;

use crate::input::{Interaction, Key, KeyboardEvent, Location, Modifiers, MouseButton, MouseEvent, NamedKey, Point, ScrollDelta};
use crate::text::to_chars;

verus! {

/// The virtual key codes that key events carry.
#[derive(Debug, Clone, Copy, PartialEq, Eq, Structural)]
pub enum VirtualKeyCode {
    Control,
    Shift,
    Return,
    Tab,
    Space,
    Down,
    Right,
    Up,
    Left,
    End,
    Home,
    Back,
    Delete,
    Insert,
    Escape,
    F1,
    F2,
    F3,
    F4,
    F5,
    F6,
    F7,
    F8,
    F9,
    F10,
    F11,
    F12,
    A,
    B,
    C,
    D,
    E,
    F,
    G,
    H,
    I,
    J,
    K,
    L,
    M,
    N,
    O,
    P,
    Q,
    R,
    S,
    T,
    U,
    V,
    W,
    X,
    Y,
    Z,
    Key0,
    Key1,
    Key2,
    Key3,
    Key4,
    Key5,
    Key6,
    Key7,
    Key8,
    Key9,
    OemComma,
    OemPeriod,
    OemMinus,
    OemPlus,
    Oem5,
    Oem3,
    Oem2,
    Oem102,
    Oem4,
    Oem6,
}

/// The platform whose native key codes a key event carries.
#[derive(Debug, Clone, Copy, PartialEq, Eq, Structural)]
pub enum Platform {
    Windows,
    Unix,
}

/// A named key's virtual key code, and its native code on Windows and on Unix.
pub open spec fn named_key_code(key: NamedKey) -> Option<(VirtualKeyCode, u32, u32)> {
    match key {
        NamedKey::Control => Some((VirtualKeyCode::Control, 17, 29)),
        NamedKey::Shift => Some((VirtualKeyCode::Shift, 16, 42)),
        NamedKey::Enter => Some((VirtualKeyCode::Return, 13, 28)),
        NamedKey::Tab => Some((VirtualKeyCode::Tab, 9, 15)),
        NamedKey::Space => Some((VirtualKeyCode::Space, 32, 57)),
        NamedKey::ArrowDown => Some((VirtualKeyCode::Down, 40, 108)),
        NamedKey::ArrowLeft => Some((VirtualKeyCode::Right, 37, 106)),
        NamedKey::ArrowRight => Some((VirtualKeyCode::Up, 39, 103)),
        NamedKey::ArrowUp => Some((VirtualKeyCode::Left, 33, 105)),
        NamedKey::End => Some((VirtualKeyCode::End, 35, 107)),
        NamedKey::Home => Some((VirtualKeyCode::Home, 36, 102)),
        NamedKey::Backspace => Some((VirtualKeyCode::Back, 8, 14)),
        NamedKey::Delete => Some((VirtualKeyCode::Delete, 46, 11)),
        NamedKey::Insert => Some((VirtualKeyCode::Insert, 45, 110)),
        NamedKey::Escape => Some((VirtualKeyCode::Escape, 27, 1)),
        NamedKey::F1 => Some((VirtualKeyCode::F1, 112, 59)),
        NamedKey::F2 => Some((VirtualKeyCode::F2, 113, 60)),
        NamedKey::F3 => Some((VirtualKeyCode::F3, 114, 61)),
        NamedKey::F4 => Some((VirtualKeyCode::F4, 115, 62)),
        NamedKey::F5 => Some((VirtualKeyCode::F5, 116, 63)),
        NamedKey::F6 => Some((VirtualKeyCode::F6, 117, 64)),
        NamedKey::F7 => Some((VirtualKeyCode::F7, 118, 65)),
        NamedKey::F8 => Some((VirtualKeyCode::F8, 119, 66)),
        NamedKey::F9 => Some((VirtualKeyCode::F9, 120, 67)),
        NamedKey::F10 => Some((VirtualKeyCode::F10, 121, 68)),
        NamedKey::F11 => Some((VirtualKeyCode::F11, 122, 69)),
        NamedKey::F12 => Some((VirtualKeyCode::F12, 123, 70)),
        _ => None,
    }
}

/// A character key's virtual key code, and its native code on Windows and on Unix.
pub open spec fn char_key_code(c: char) -> Option<(VirtualKeyCode, u32, u32)> {
    match c {
        'a' => Some((VirtualKeyCode::A, 65, 30)),
        'b' => Some((VirtualKeyCode::B, 66, 48)),
        'c' => Some((VirtualKeyCode::C, 67, 46)),
        'd' => Some((VirtualKeyCode::D, 68, 32)),
        'e' => Some((VirtualKeyCode::E, 69, 18)),
        'f' => Some((VirtualKeyCode::F, 70, 33)),
        'g' => Some((VirtualKeyCode::G, 71, 34)),
        'h' => Some((VirtualKeyCode::H, 72, 35)),
        'i' => Some((VirtualKeyCode::I, 73, 23)),
        'j' => Some((VirtualKeyCode::J, 74, 36)),
        'k' => Some((VirtualKeyCode::K, 75, 37)),
        'l' => Some((VirtualKeyCode::L, 76, 38)),
        'm' => Some((VirtualKeyCode::M, 77, 50)),
        'n' => Some((VirtualKeyCode::N, 78, 49)),
        'o' => Some((VirtualKeyCode::O, 79, 24)),
        'p' => Some((VirtualKeyCode::P, 80, 25)),
        'q' => Some((VirtualKeyCode::Q, 81, 16)),
        'r' => Some((VirtualKeyCode::R, 82, 19)),
        's' => Some((VirtualKeyCode::S, 83, 31)),
        't' => Some((VirtualKeyCode::T, 84, 20)),
        'u' => Some((VirtualKeyCode::U, 85, 22)),
        'v' => Some((VirtualKeyCode::V, 86, 47)),
        'w' => Some((VirtualKeyCode::W, 87, 17)),
        'x' => Some((VirtualKeyCode::X, 88, 47)),
        'y' => Some((VirtualKeyCode::Y, 89, 21)),
        'z' => Some((VirtualKeyCode::Z, 90, 44)),
        '0' => Some((VirtualKeyCode::Key0, 48, 11)),
        '1' => Some((VirtualKeyCode::Key1, 49, 2)),
        '2' => Some((VirtualKeyCode::Key2, 50, 3)),
        '3' => Some((VirtualKeyCode::Key3, 51, 4)),
        '4' => Some((VirtualKeyCode::Key4, 52, 5)),
        '5' => Some((VirtualKeyCode::Key5, 53, 6)),
        '6' => Some((VirtualKeyCode::Key6, 54, 7)),
        '7' => Some((VirtualKeyCode::Key7, 55, 8)),
        '8' => Some((VirtualKeyCode::Key8, 56, 9)),
        '9' => Some((VirtualKeyCode::Key9, 57, 10)),
        ',' => Some((VirtualKeyCode::OemComma, 188, 51)),
        '.' => Some((VirtualKeyCode::OemPeriod, 190, 52)),
        ';' => Some((VirtualKeyCode::OemPeriod, 186, 39)),
        '-' => Some((VirtualKeyCode::OemMinus, 189, 12)),
        '_' => Some((VirtualKeyCode::OemMinus, 189, 74)),
        '+' => Some((VirtualKeyCode::OemPlus, 187, 78)),
        '=' => Some((VirtualKeyCode::OemPlus, 187, 78)),
        '\\' => Some((VirtualKeyCode::Oem5, 220, 43)),
        '|' => Some((VirtualKeyCode::Oem5, 220, 43)),
        '`' => Some((VirtualKeyCode::Oem3, 192, 41)),
        '?' => Some((VirtualKeyCode::Oem2, 191, 53)),
        '/' => Some((VirtualKeyCode::Oem2, 191, 53)),
        '>' => Some((VirtualKeyCode::Oem102, 226, 52)),
        '<' => Some((VirtualKeyCode::Oem102, 226, 52)),
        '[' => Some((VirtualKeyCode::Oem4, 219, 26)),
        ']' => Some((VirtualKeyCode::Oem6, 221, 27)),
        _ => None,
    }
}

/// A named key's codes (see `named_key_code`).
pub fn named_key_codes(key: NamedKey) -> (res: Option<(VirtualKeyCode, u32, u32)>)
    ensures
        res == named_key_code(key),
{
    match key {
        NamedKey::Control => Some((VirtualKeyCode::Control, 17, 29)),
        NamedKey::Shift => Some((VirtualKeyCode::Shift, 16, 42)),
        NamedKey::Enter => Some((VirtualKeyCode::Return, 13, 28)),
        NamedKey::Tab => Some((VirtualKeyCode::Tab, 9, 15)),
        NamedKey::Space => Some((VirtualKeyCode::Space, 32, 57)),
        NamedKey::ArrowDown => Some((VirtualKeyCode::Down, 40, 108)),
        NamedKey::ArrowLeft => Some((VirtualKeyCode::Right, 37, 106)),
        NamedKey::ArrowRight => Some((VirtualKeyCode::Up, 39, 103)),
        NamedKey::ArrowUp => Some((VirtualKeyCode::Left, 33, 105)),
        NamedKey::End => Some((VirtualKeyCode::End, 35, 107)),
        NamedKey::Home => Some((VirtualKeyCode::Home, 36, 102)),
        NamedKey::Backspace => Some((VirtualKeyCode::Back, 8, 14)),
        NamedKey::Delete => Some((VirtualKeyCode::Delete, 46, 11)),
        NamedKey::Insert => Some((VirtualKeyCode::Insert, 45, 110)),
        NamedKey::Escape => Some((VirtualKeyCode::Escape, 27, 1)),
        NamedKey::F1 => Some((VirtualKeyCode::F1, 112, 59)),
        NamedKey::F2 => Some((VirtualKeyCode::F2, 113, 60)),
        NamedKey::F3 => Some((VirtualKeyCode::F3, 114, 61)),
        NamedKey::F4 => Some((VirtualKeyCode::F4, 115, 62)),
        NamedKey::F5 => Some((VirtualKeyCode::F5, 116, 63)),
        NamedKey::F6 => Some((VirtualKeyCode::F6, 117, 64)),
        NamedKey::F7 => Some((VirtualKeyCode::F7, 118, 65)),
        NamedKey::F8 => Some((VirtualKeyCode::F8, 119, 66)),
        NamedKey::F9 => Some((VirtualKeyCode::F9, 120, 67)),
        NamedKey::F10 => Some((VirtualKeyCode::F10, 121, 68)),
        NamedKey::F11 => Some((VirtualKeyCode::F11, 122, 69)),
        NamedKey::F12 => Some((VirtualKeyCode::F12, 123, 70)),
        _ => None,
    }
}

/// A character key's codes (see `char_key_code`).
pub fn char_key_codes(c: char) -> (res: Option<(VirtualKeyCode, u32, u32)>)
    ensures
        res == char_key_code(c),
{
    match c {
        'a' => Some((VirtualKeyCode::A, 65, 30)),
        'b' => Some((VirtualKeyCode::B, 66, 48)),
        'c' => Some((VirtualKeyCode::C, 67, 46)),
        'd' => Some((VirtualKeyCode::D, 68, 32)),
        'e' => Some((VirtualKeyCode::E, 69, 18)),
        'f' => Some((VirtualKeyCode::F, 70, 33)),
        'g' => Some((VirtualKeyCode::G, 71, 34)),
        'h' => Some((VirtualKeyCode::H, 72, 35)),
        'i' => Some((VirtualKeyCode::I, 73, 23)),
        'j' => Some((VirtualKeyCode::J, 74, 36)),
        'k' => Some((VirtualKeyCode::K, 75, 37)),
        'l' => Some((VirtualKeyCode::L, 76, 38)),
        'm' => Some((VirtualKeyCode::M, 77, 50)),
        'n' => Some((VirtualKeyCode::N, 78, 49)),
        'o' => Some((VirtualKeyCode::O, 79, 24)),
        'p' => Some((VirtualKeyCode::P, 80, 25)),
        'q' => Some((VirtualKeyCode::Q, 81, 16)),
        'r' => Some((VirtualKeyCode::R, 82, 19)),
        's' => Some((VirtualKeyCode::S, 83, 31)),
        't' => Some((VirtualKeyCode::T, 84, 20)),
        'u' => Some((VirtualKeyCode::U, 85, 22)),
        'v' => Some((VirtualKeyCode::V, 86, 47)),
        'w' => Some((VirtualKeyCode::W, 87, 17)),
        'x' => Some((VirtualKeyCode::X, 88, 47)),
        'y' => Some((VirtualKeyCode::Y, 89, 21)),
        'z' => Some((VirtualKeyCode::Z, 90, 44)),
        '0' => Some((VirtualKeyCode::Key0, 48, 11)),
        '1' => Some((VirtualKeyCode::Key1, 49, 2)),
        '2' => Some((VirtualKeyCode::Key2, 50, 3)),
        '3' => Some((VirtualKeyCode::Key3, 51, 4)),
        '4' => Some((VirtualKeyCode::Key4, 52, 5)),
        '5' => Some((VirtualKeyCode::Key5, 53, 6)),
        '6' => Some((VirtualKeyCode::Key6, 54, 7)),
        '7' => Some((VirtualKeyCode::Key7, 55, 8)),
        '8' => Some((VirtualKeyCode::Key8, 56, 9)),
        '9' => Some((VirtualKeyCode::Key9, 57, 10)),
        ',' => Some((VirtualKeyCode::OemComma, 188, 51)),
        '.' => Some((VirtualKeyCode::OemPeriod, 190, 52)),
        ';' => Some((VirtualKeyCode::OemPeriod, 186, 39)),
        '-' => Some((VirtualKeyCode::OemMinus, 189, 12)),
        '_' => Some((VirtualKeyCode::OemMinus, 189, 74)),
        '+' => Some((VirtualKeyCode::OemPlus, 187, 78)),
        '=' => Some((VirtualKeyCode::OemPlus, 187, 78)),
        '\\' => Some((VirtualKeyCode::Oem5, 220, 43)),
        '|' => Some((VirtualKeyCode::Oem5, 220, 43)),
        '`' => Some((VirtualKeyCode::Oem3, 192, 41)),
        '?' => Some((VirtualKeyCode::Oem2, 191, 53)),
        '/' => Some((VirtualKeyCode::Oem2, 191, 53)),
        '>' => Some((VirtualKeyCode::Oem102, 226, 52)),
        '<' => Some((VirtualKeyCode::Oem102, 226, 52)),
        '[' => Some((VirtualKeyCode::Oem4, 219, 26)),
        ']' => Some((VirtualKeyCode::Oem6, 221, 27)),
        _ => None,
    }
}


/// Whether a key goes down or comes up.
#[derive(Debug, Clone, Copy, PartialEq, Eq, Structural)]
pub enum KeyPress {
    Press,
    Unpress,
}

/// The kinds of key events a view takes.
#[derive(Debug, Clone, Copy, PartialEq, Eq, Structural)]
pub enum KeyEventType {
    RawKeyDown,
    KeyUp,
    Char,
}

/// The modifier keys of a key event.
#[derive(Debug, Clone, Copy, PartialEq, Eq, Structural)]
pub struct KeyEventModifiers {
    pub alt: bool,
    pub ctrl: bool,
    pub meta: bool,
    pub shift: bool,
}

/// What a view's key event is made from.
#[derive(Debug, Clone, PartialEq)]
pub struct KeyEventInfo {
    pub ty: KeyEventType,
    pub modifiers: KeyEventModifiers,
    pub virtual_key_code: VirtualKeyCode,
    pub native_key_code: u32,
    pub text: String,
    pub unmodified_text: String,
    pub is_keypad: bool,
    pub is_auto_repeat: bool,
    pub is_system_key: bool,
}

/// The text a key types: a space for the space bar, nothing for other named keys, the
/// event's text for a character key; none for an unidentified key.
pub open spec fn key_text(key: Key, text: Option<String>) -> Option<Seq<char>> {
    match key {
        Key::Named(n) => Some(
            if n == NamedKey::Space {
                seq![' ']
            } else {
                Seq::<char>::empty()
            },
        ),
        Key::Character(_) => Some(
            match text {
                Some(t) => t@,
                None => Seq::<char>::empty(),
            },
        ),
        Key::Unidentified => None,
    }
}

/// A key's virtual key code and native codes: from the table of named keys, or of
/// characters for a key of one character; none otherwise.
pub open spec fn key_codes(key: Key) -> Option<(VirtualKeyCode, u32, u32)> {
    match key {
        Key::Named(n) => named_key_code(n),
        Key::Character(c) => if c@.len() == 1 {
            char_key_code(c@[0])
        } else {
            None
        },
        Key::Unidentified => None,
    }
}

/// The kind of a key event: a raw key-down while Ctrl is held; a character when the key
/// goes down and types ASCII text; otherwise a raw key-down or a key-up.
pub open spec fn key_event_type(press: KeyPress, ctrl: bool, text: Seq<char>) -> KeyEventType {
    if ctrl {
        KeyEventType::RawKeyDown
    } else if text.len() > 0 && vstd::utf8::is_ascii_chars(text) && press == KeyPress::Press {
        KeyEventType::Char
    } else {
        match press {
            KeyPress::Press => KeyEventType::RawKeyDown,
            KeyPress::Unpress => KeyEventType::KeyUp,
        }
    }
}

/// The key event a view gets for a key, if the key is known: its codes, text and kind,
/// the modifiers held, and as unmodified text the modified key's character when there
/// is one.
pub open spec fn key_event_spec(
    platform: Platform,
    press: KeyPress,
    modified_key: Option<Key>,
    key: Option<Key>,
    modifiers: Modifiers,
    text: Option<String>,
    res: Option<KeyEventInfo>,
) -> bool {
    match key {
        None => res is None,
        Some(k) => match (key_text(k, text), key_codes(k)) {
            (Some(t), Some(codes)) => {
                &&& res is Some
                &&& res->0.text@ == t
                &&& res->0.virtual_key_code == codes.0
                &&& res->0.native_key_code == match platform {
                    Platform::Windows => codes.1,
                    Platform::Unix => codes.2,
                }
                &&& res->0.modifiers == (KeyEventModifiers {
                    alt: modifiers.alt,
                    ctrl: modifiers.control,
                    meta: modifiers.logo,
                    shift: modifiers.shift,
                })
                &&& res->0.ty == key_event_type(press, modifiers.control, t)
                &&& res->0.unmodified_text@ == match modified_key {
                    Some(Key::Character(c)) => c@,
                    _ => t,
                }
                &&& !res->0.is_keypad && !res->0.is_auto_repeat && !res->0.is_system_key
            },
            _ => res is None,
        },
    }
}

/// The key event a view gets for a key (see `key_event_spec`).
pub fn iced_key_to_ultralight_key(
    platform: Platform,
    press: KeyPress,
    modified_key: Option<Key>,
    key: Option<Key>,
    _location: Option<Location>,
    modifiers: Modifiers,
    text: Option<String>,
) -> (res: Option<KeyEventInfo>)
    ensures
        key_event_spec(platform, press, modified_key, key, modifiers, text, res),
{
    let key = match key {
        Some(key) => key,
        None => return None,
    };
    let text: String = match &key {
        Key::Named(named) => {
            if *named == NamedKey::Space {
                let s = String::from_str(" ");
                proof {
                    reveal_strlit(" ");
                    assert(s@ =~= seq![' ']);
                }
                s
            } else {
                String::new()
            }
        },
        Key::Character(_) => match &text {
            Some(t) => t.clone(),
            None => String::new(),
        },
        Key::Unidentified => return None,
    };
    let codes = match &key {
        Key::Named(named) => named_key_codes(*named),
        Key::Character(c) => {
            if c.as_str().unicode_len() == 1 {
                char_key_codes(c.as_str().get_char(0))
            } else {
                None
            }
        },
        Key::Unidentified => None,
    };
    let (virtual_key, windows_code, unix_code) = match codes {
        Some(c) => c,
        None => return None,
    };
    let native_key = match platform {
        Platform::Windows => windows_code,
        Platform::Unix => unix_code,
    };
    let modifiers = KeyEventModifiers {
        alt: modifiers.alt(),
        ctrl: modifiers.control(),
        meta: modifiers.logo(),
        shift: modifiers.shift(),
    };
    let ty = if modifiers.ctrl {
        KeyEventType::RawKeyDown
    } else if text.as_str().unicode_len() > 0 && text.as_str().is_ascii() && press == KeyPress::Press {
        KeyEventType::Char
    } else {
        match press {
            KeyPress::Press => KeyEventType::RawKeyDown,
            KeyPress::Unpress => KeyEventType::KeyUp,
        }
    };
    let unmodified_text = match &modified_key {
        Some(Key::Character(c)) => c.clone(),
        _ => text.clone(),
    };
    Some(
        KeyEventInfo {
            ty,
            modifiers,
            virtual_key_code: virtual_key,
            native_key_code: native_key,
            text,
            unmodified_text,
            is_keypad: false,
            is_auto_repeat: false,
            is_system_key: false,
        },
    )
}

/// The key event a view gets for a keyboard event: a key going down with its text and
/// modified key, a key coming up, or a change of the modifiers alone (which carries no
/// key, so gives none).
pub fn keyboard_event_to_key_event(platform: Platform, event: KeyboardEvent) -> (res: Option<
    KeyEventInfo,
>)
    ensures
        match event {
            KeyboardEvent::KeyPressed { key, modified_key, location, modifiers, text } => key_event_spec(
                platform,
                KeyPress::Press,
                Some(modified_key),
                Some(key),
                modifiers,
                text,
                res,
            ),
            KeyboardEvent::KeyReleased { key, location, modifiers } => key_event_spec(
                platform,
                KeyPress::Unpress,
                None,
                Some(key),
                modifiers,
                None,
                res,
            ),
            KeyboardEvent::ModifiersChanged(_) => res is None,
        },
{
    match event {
        KeyboardEvent::KeyPressed { key, modified_key, location, modifiers, text } => {
            iced_key_to_ultralight_key(
                platform,
                KeyPress::Press,
                Some(modified_key),
                Some(key),
                Some(location),
                modifiers,
                text,
            )
        },
        KeyboardEvent::KeyReleased { key, location, modifiers } => iced_key_to_ultralight_key(
            platform,
            KeyPress::Unpress,
            None,
            Some(key),
            Some(location),
            modifiers,
            None,
        ),
        KeyboardEvent::ModifiersChanged(modifiers) => iced_key_to_ultralight_key(
            platform,
            KeyPress::Press,
            None,
            None,
            None,
            modifiers,
            None,
        ),
    }
}

/// The mouse events a view takes.
#[derive(Debug, Clone, Copy, PartialEq, Eq, Structural)]
pub enum MouseEventType {
    MouseMoved,
    MouseDown,
    MouseUp,
}

/// The mouse buttons a view's mouse events name.
#[derive(Debug, Clone, Copy, PartialEq, Eq, Structural)]
pub enum ViewMouseButton {
    /// No button.
    NoButton,
    Left,
    Right,
}

/// What a view is told of a mouse event.
#[derive(Debug, Clone, Copy, PartialEq, Eq, Structural)]
pub enum MouseAction {
    /// Nothing.
    Ignore,
    /// A mouse event at a point.
    Fire { kind: MouseEventType, x: i32, y: i32, button: ViewMouseButton },
    /// A scroll.
    Scroll(ScrollDelta),
    /// The cursor entered the view.
    Focus,
    /// The cursor left the view.
    Unfocus,
}

/// What a view is told of a mouse event at a point: left and right presses and releases
/// and moves as mouse events at the point, wheel turns as scrolls, the cursor entering
/// or leaving as focus changes; the other buttons are ignored.
pub fn mouse_event_action(point: Point, event: MouseEvent) -> (res: MouseAction)
    ensures
        res == match event {
            MouseEvent::ButtonPressed(MouseButton::Left) => MouseAction::Fire {
                kind: MouseEventType::MouseDown,
                x: point.x,
                y: point.y,
                button: ViewMouseButton::Left,
            },
            MouseEvent::ButtonReleased(MouseButton::Left) => MouseAction::Fire {
                kind: MouseEventType::MouseUp,
                x: point.x,
                y: point.y,
                button: ViewMouseButton::Left,
            },
            MouseEvent::ButtonPressed(MouseButton::Right) => MouseAction::Fire {
                kind: MouseEventType::MouseDown,
                x: point.x,
                y: point.y,
                button: ViewMouseButton::Right,
            },
            MouseEvent::ButtonReleased(MouseButton::Right) => MouseAction::Fire {
                kind: MouseEventType::MouseUp,
                x: point.x,
                y: point.y,
                button: ViewMouseButton::Right,
            },
            MouseEvent::CursorMoved { .. } => MouseAction::Fire {
                kind: MouseEventType::MouseMoved,
                x: point.x,
                y: point.y,
                button: ViewMouseButton::NoButton,
            },
            MouseEvent::WheelScrolled { delta } => MouseAction::Scroll(delta),
            MouseEvent::CursorLeft => MouseAction::Unfocus,
            MouseEvent::CursorEntered => MouseAction::Focus,
            _ => MouseAction::Ignore,
        },
{
    match event {
        MouseEvent::ButtonPressed(MouseButton::Other(_)) => MouseAction::Ignore,
        MouseEvent::ButtonReleased(MouseButton::Other(_)) => MouseAction::Ignore,
        MouseEvent::ButtonPressed(MouseButton::Middle) => MouseAction::Ignore,
        MouseEvent::ButtonReleased(MouseButton::Middle) => MouseAction::Ignore,
        MouseEvent::ButtonPressed(MouseButton::Forward) => MouseAction::Ignore,
        MouseEvent::ButtonReleased(MouseButton::Forward) => MouseAction::Ignore,
        MouseEvent::ButtonPressed(MouseButton::Back) => MouseAction::Ignore,
        MouseEvent::ButtonReleased(MouseButton::Back) => MouseAction::Ignore,
        MouseEvent::ButtonPressed(MouseButton::Left) => MouseAction::Fire {
            kind: MouseEventType::MouseDown,
            x: point.x,
            y: point.y,
            button: ViewMouseButton::Left,
        },
        MouseEvent::ButtonReleased(MouseButton::Left) => MouseAction::Fire {
            kind: MouseEventType::MouseUp,
            x: point.x,
            y: point.y,
            button: ViewMouseButton::Left,
        },
        MouseEvent::ButtonPressed(MouseButton::Right) => MouseAction::Fire {
            kind: MouseEventType::MouseDown,
            x: point.x,
            y: point.y,
            button: ViewMouseButton::Right,
        },
        MouseEvent::ButtonReleased(MouseButton::Right) => MouseAction::Fire {
            kind: MouseEventType::MouseUp,
            x: point.x,
            y: point.y,
            button: ViewMouseButton::Right,
        },
        MouseEvent::CursorMoved { position: _ } => MouseAction::Fire {
            kind: MouseEventType::MouseMoved,
            x: point.x,
            y: point.y,
            button: ViewMouseButton::NoButton,
        },
        MouseEvent::WheelScrolled { delta } => MouseAction::Scroll(delta),
        MouseEvent::CursorLeft => MouseAction::Unfocus,
        MouseEvent::CursorEntered => MouseAction::Focus,
    }
}

/// How far a view scrolls, in pixels, for a turn of the wheel: a hundred pixels a line.
pub fn scroll_pixels(delta: ScrollDelta) -> (res: (i32, i32))
    requires
        delta matches ScrollDelta::Lines { x, y } ==> -21474836 <= x <= 21474836 && -21474836 <= y
            <= 21474836,
    ensures
        res == match delta {
            ScrollDelta::Lines { x, y } => ((x * 100) as i32, (y * 100) as i32),
            ScrollDelta::Pixels { x, y } => (x, y),
        },
{
    match delta {
        ScrollDelta::Lines { x, y } => (x * 100, y * 100),
        ScrollDelta::Pixels { x, y } => (x, y),
    }
}

/// The cursors a view asks for.
#[derive(Debug, Clone, Copy, PartialEq, Eq, Structural)]
pub enum Cursor {
    /// No cursor.
    Hidden,
    Pointer,
    Hand,
    Grab,
    VerticalText,
    IBeam,
    Cross,
    Wait,
    Grabbing,
    NorthSouthResize,
    EastWestResize,
    NotAllowed,
    ZoomIn,
    ZoomOut,
    /// Any other cursor.
    Other,
}

/// The cursor shape shown for a view's cursor.
pub fn cursor_interaction(cursor: Cursor) -> (res: Interaction)
    ensures
        res == match cursor {
            Cursor::Hidden | Cursor::Pointer => Interaction::Idle,
            Cursor::Hand => Interaction::Pointer,
            Cursor::Grab | Cursor::Grabbing => Interaction::Grab,
            Cursor::VerticalText | Cursor::IBeam => Interaction::Text,
            Cursor::Cross => Interaction::Crosshair,
            Cursor::Wait => Interaction::Working,
            Cursor::NorthSouthResize => Interaction::ResizingVertically,
            Cursor::EastWestResize => Interaction::ResizingHorizontally,
            Cursor::NotAllowed => Interaction::NotAllowed,
            Cursor::ZoomIn | Cursor::ZoomOut => Interaction::ZoomIn,
            Cursor::Other => Interaction::Pointer,
        },
{
    match cursor {
        Cursor::Hidden => Interaction::Idle,
        Cursor::Pointer => Interaction::Idle,
        Cursor::Hand => Interaction::Pointer,
        Cursor::Grab => Interaction::Grab,
        Cursor::VerticalText => Interaction::Text,
        Cursor::IBeam => Interaction::Text,
        Cursor::Cross => Interaction::Crosshair,
        Cursor::Wait => Interaction::Working,
        Cursor::Grabbing => Interaction::Grab,
        Cursor::NorthSouthResize => Interaction::ResizingVertically,
        Cursor::EastWestResize => Interaction::ResizingHorizontally,
        Cursor::NotAllowed => Interaction::NotAllowed,
        Cursor::ZoomIn => Interaction::ZoomIn,
        Cursor::ZoomOut => Interaction::ZoomIn,
        Cursor::Other => Interaction::Pointer,
    }
}

/// The pixels a view shows before it has any: `width * height` white bytes.
pub fn blank_pixels(width: u32, height: u32) -> (res: Vec<u8>)
    requires
        width * height <= usize::MAX,
    ensures
        res@.len() == width * height,
        forall|i: int| 0 <= i < res@.len() ==> res@[i] == 255,
{
    let n = width as usize * height as usize;
    let mut res: Vec<u8> = Vec::new();
    let mut i: usize = 0;
    while i < n
        invariant
            i <= n,
            res@.len() == i,
            forall|k: int| 0 <= k < i ==> res@[k] == 255,
        decreases n - i,
    {
        res.push(255);
        i = i + 1;
    }
    res
}

} // verus!
