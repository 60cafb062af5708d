//! Keyboard and mouse input, held as the plain values that the widgets and engines read.
use vstd::prelude::*;

use crate::text::copy_opt_string;

verus! {

/// The named (non-character) keys that the widgets and engines tell apart.
#[derive(Debug, Clone, Copy, PartialEq, Eq, Structural)]
pub enum NamedKey {
    Control,
    Shift,
    Alt,
    Enter,
    Tab,
    Space,
    ArrowDown,
    ArrowLeft,
    ArrowRight,
    ArrowUp,
    End,
    Home,
    Backspace,
    Delete,
    Insert,
    Escape,
    F1,
    F2,
    F3,
    F4,
    F5,
    F6,
    F7,
    F8,
    F9,
    F10,
    F11,
    F12,
    /// Any other named key.
    Other,
}

/// A key on the keyboard.
#[derive(Debug, Clone, PartialEq)]
pub enum Key {
    Named(NamedKey),
    Character(String),
    Unidentified,
}

impl Key {
    /// A copy of the key.
    pub fn duplicate(&self) -> (res: Key)
        ensures
            res == *self,
    {
        match self {
            Key::Named(n) => Key::Named(*n),
            Key::Character(c) => Key::Character(c.clone()),
            Key::Unidentified => Key::Unidentified,
        }
    }
}

/// Where on the keyboard a key is.
#[derive(Debug, Clone, Copy, PartialEq, Eq, Structural)]
pub enum Location {
    Standard,
    Left,
    Right,
    Numpad,
}

/// The modifier keys held down.
#[derive(Debug, Clone, Copy, PartialEq, Eq, Structural, Default)]
pub struct Modifiers {
    pub shift: bool,
    pub control: bool,
    pub alt: bool,
    pub logo: bool,
}

impl Modifiers {
    pub fn shift(&self) -> (res: bool)
        ensures
            res == self.shift,
    {
        self.shift
    }

    pub fn control(&self) -> (res: bool)
        ensures
            res == self.control,
    {
        self.control
    }

    pub fn alt(&self) -> (res: bool)
        ensures
            res == self.alt,
    {
        self.alt
    }

    pub fn logo(&self) -> (res: bool)
        ensures
            res == self.logo,
    {
        self.logo
    }
}

/// A keyboard event.
#[derive(Debug, Clone, PartialEq)]
pub enum KeyboardEvent {
    KeyPressed {
        key: Key,
        modified_key: Key,
        location: Location,
        modifiers: Modifiers,
        text: Option<String>,
    },
    KeyReleased { key: Key, location: Location, modifiers: Modifiers },
    ModifiersChanged(Modifiers),
}

impl KeyboardEvent {
    /// A copy of the event.
    pub fn duplicate(&self) -> (res: KeyboardEvent)
        ensures
            res == *self,
    {
        match self {
            KeyboardEvent::KeyPressed { key, modified_key, location, modifiers, text } => {
                KeyboardEvent::KeyPressed {
                    key: key.duplicate(),
                    modified_key: modified_key.duplicate(),
                    location: *location,
                    modifiers: *modifiers,
                    text: copy_opt_string(text),
                }
            },
            KeyboardEvent::KeyReleased { key, location, modifiers } => {
                KeyboardEvent::KeyReleased {
                    key: key.duplicate(),
                    location: *location,
                    modifiers: *modifiers,
                }
            },
            KeyboardEvent::ModifiersChanged(m) => KeyboardEvent::ModifiersChanged(*m),
        }
    }
}

/// A copy of an optional keyboard event.
pub fn duplicate_key_event(e: &Option<KeyboardEvent>) -> (res: Option<KeyboardEvent>)
    ensures
        res == *e,
{
    match e {
        Some(x) => Some(x.duplicate()),
        None => None,
    }
}

/// A point on screen, in whole pixels.
#[derive(Debug, Clone, Copy, PartialEq, Eq, Structural)]
pub struct Point {
    pub x: i32,
    pub y: i32,
}

/// A size in pixels.
#[derive(Debug, Clone, Copy, PartialEq, Eq, Structural)]
pub struct Size {
    pub width: u32,
    pub height: u32,
}

impl Size {
    pub fn new(width: u32, height: u32) -> (res: Size)
        ensures
            res.width == width,
            res.height == height,
    {
        Size { width, height }
    }
}

/// A mouse button.
#[derive(Debug, Clone, Copy, PartialEq, Eq, Structural)]
pub enum MouseButton {
    Left,
    Right,
    Middle,
    Back,
    Forward,
    Other(u16),
}

/// How far the wheel turned, in whole lines or pixels.
#[derive(Debug, Clone, Copy, PartialEq, Eq, Structural)]
pub enum ScrollDelta {
    Lines { x: i32, y: i32 },
    Pixels { x: i32, y: i32 },
}

/// A mouse event.
#[derive(Debug, Clone, Copy, PartialEq, Eq, Structural)]
pub enum MouseEvent {
    CursorEntered,
    CursorLeft,
    CursorMoved { position: Point },
    ButtonPressed(MouseButton),
    ButtonReleased(MouseButton),
    WheelScrolled { delta: ScrollDelta },
}

/// The cursor shapes a browser view asks for.
#[derive(Debug, Clone, Copy, PartialEq, Eq, Structural)]
pub enum Interaction {
    Idle,
    Pointer,
    Grab,
    Text,
    Crosshair,
    Working,
    ResizingHorizontally,
    ResizingVertically,
    NotAllowed,
    ZoomIn,
}

/// An event of the window, as far as the browser reads it.
#[derive(Debug, Clone, PartialEq)]
pub enum Event {
    Keyboard(KeyboardEvent),
    Mouse(MouseEvent),
    /// Window, touch and other events, which the browser ignores.
    Other,
}

impl Event {
    /// A copy of the event.
    pub fn duplicate(&self) -> (res: Event)
        ensures
            res == *self,
    {
        match self {
            Event::Keyboard(k) => Event::Keyboard(k.duplicate()),
            Event::Mouse(m) => Event::Mouse(*m),
            Event::Other => Event::Other,
        }
    }
}

} // verus!
