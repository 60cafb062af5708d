//! Keyboard shortcuts: a modifier and a key that trigger an action.
use vstd::prelude::*;

use crate::input::{Key, Modifiers};
use crate::text::str_eq;

verus! {

/// The modifier keys a shortcut can ask for.
#[derive(Debug, Clone, Copy, PartialEq, Eq, Structural, PartialOrd, Ord)]
pub enum ShortcutModifier {
    Shift,
    Ctrl,
    Alt,
}

/// Whether the modifier is held down.
pub open spec fn modifier_held(m: ShortcutModifier, modifiers: Modifiers) -> bool {
    match m {
        ShortcutModifier::Shift => modifiers.shift,
        ShortcutModifier::Ctrl => modifiers.control,
        ShortcutModifier::Alt => modifiers.alt,
    }
}

/// A keyboard shortcut: an action, triggered by a modifier and a key.
pub struct Shortcut<'a, Message> {
    pub action: Message,
    modifier: ShortcutModifier,
    key: &'a str,
}

impl<'a, Message> Shortcut<'a, Message> {
    pub closed spec fn spec_action(&self) -> Message {
        self.action
    }

    pub closed spec fn spec_modifier(&self) -> ShortcutModifier {
        self.modifier
    }

    pub closed spec fn spec_key(&self) -> Seq<char> {
        self.key@
    }

    /// Whether the shortcut fires: its modifier is held and the key pressed is the
    /// shortcut's own character key (a named key, such as the modifier itself, does not
    /// fire it).
    pub open spec fn fires(&self, key: Key, modifiers: Modifiers) -> bool {
        &&& modifier_held(self.spec_modifier(), modifiers)
        &&& match key {
            Key::Character(c) => c@ == self.spec_key(),
            _ => false,
        }
    }

    /// A shortcut; the key must not be empty.
    pub fn new(action: Message, modifier: ShortcutModifier, key: &'a str) -> (res: Self)
        requires
            key@.len() > 0,
        ensures
            res.spec_action() == action,
            res.spec_modifier() == modifier,
            res.spec_key() == key@,
    {
        Shortcut { action, modifier, key }
    }

    /// The action the shortcut triggers.
    pub fn action(&self) -> (res: &Message)
        ensures
            *res == self.spec_action(),
    {
        &self.action
    }

    pub fn is_pressed(&self, key: &Key, modifiers: &Modifiers) -> (res: bool)
        ensures
            res == self.fires(*key, *modifiers),
    {
        match self.modifier {
            ShortcutModifier::Shift => {
                if !modifiers.shift() {
                    return false;
                }
            },
            ShortcutModifier::Ctrl => {
                if !modifiers.control() {
                    return false;
                }
            },
            ShortcutModifier::Alt => {
                if !modifiers.alt() {
                    return false;
                }
            },
        }
        match key {
            Key::Character(key) => str_eq(self.key, key.as_str()),
            _ => false,
        }
    }
}

/// Whether a shortcut fires for the key and modifiers.
pub fn shortcut_pressed<Message>(
    shortcut: &Shortcut<'_, Message>,
    key: &Key,
    modifiers: &Modifiers,
) -> (res: bool)
    ensures
        res == shortcut.fires(*key, *modifiers),
{
    shortcut.is_pressed(key, modifiers)
}

} // verus!
