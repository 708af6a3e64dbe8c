//! Keyboard and mouse input as the overlays see it.
use vstd::prelude::*;

verus! {

/// Mouse buttons held (or wheel motion) in a mouse report.
#[derive(Clone, Copy, PartialEq, Eq, Structural, Debug)]
pub struct MouseButtons {
    pub left: bool,
    pub right: bool,
    pub middle: bool,
    pub vert_wheel: bool,
    pub horz_wheel: bool,
    pub wheel_positive: bool,
}

impl MouseButtons {
    /// No button held.
    pub open spec fn spec_none() -> MouseButtons {
        MouseButtons {
            left: false,
            right: false,
            middle: false,
            vert_wheel: false,
            horz_wheel: false,
            wheel_positive: false,
        }
    }

    /// No button held.
    pub fn none() -> (r: MouseButtons)
        ensures
            r == MouseButtons::spec_none(),
    {
        MouseButtons {
            left: false,
            right: false,
            middle: false,
            vert_wheel: false,
            horz_wheel: false,
            wheel_positive: false,
        }
    }

    pub open spec fn spec_is_empty(&self) -> bool {
        !self.left && !self.right && !self.middle && !self.vert_wheel && !self.horz_wheel
            && !self.wheel_positive
    }

    /// Whether no button is held.
    pub fn is_empty(&self) -> (r: bool)
        ensures
            r == self.spec_is_empty(),
    {
        !self.left && !self.right && !self.middle && !self.vert_wheel && !self.horz_wheel
            && !self.wheel_positive
    }
}

/// Modifier keys held; `other` stands for any modifier bit besides the
/// four named ones (left/right variants, leader, lock keys).
#[derive(Clone, Copy, PartialEq, Eq, Structural, Debug)]
pub struct Modifiers {
    pub shift: bool,
    pub ctrl: bool,
    pub alt: bool,
    pub super_key: bool,
    pub other: bool,
}

impl Modifiers {
    /// No modifier held.
    pub open spec fn spec_is_none(&self) -> bool {
        !self.shift && !self.ctrl && !self.alt && !self.super_key && !self.other
    }

    /// Exactly Ctrl held.
    pub open spec fn spec_is_ctrl_only(&self) -> bool {
        !self.shift && self.ctrl && !self.alt && !self.super_key && !self.other
    }

    /// Whether no modifier is held.
    pub fn is_none(&self) -> (r: bool)
        ensures
            r == self.spec_is_none(),
    {
        !self.shift && !self.ctrl && !self.alt && !self.super_key && !self.other
    }

    /// Whether exactly Ctrl is held.
    pub fn is_ctrl_only(&self) -> (r: bool)
        ensures
            r == self.spec_is_ctrl_only(),
    {
        !self.shift && self.ctrl && !self.alt && !self.super_key && !self.other
    }
}

/// A key, as far as the overlays tell keys apart.
#[derive(Clone, Copy, PartialEq, Eq, Structural, Debug)]
pub enum Key {
    Char(char),
    Escape,
    Enter,
    Backspace,
    Delete,
    UpArrow,
    DownArrow,
    LeftArrow,
    RightArrow,
    PageUp,
    PageDown,
    Home,
    End,
    Function(u8),
    Other,
}

/// A key press with its modifiers.
#[derive(Clone, Copy, PartialEq, Eq, Structural, Debug)]
pub struct KeyInput {
    pub key: Key,
    pub mods: Modifiers,
}

/// A mouse report at a cell position.
#[derive(Clone, Copy, PartialEq, Eq, Structural, Debug)]
pub struct MouseInput {
    pub x: u16,
    pub y: u16,
    pub buttons: MouseButtons,
    pub mods: Modifiers,
}

/// An input event delivered to a terminal overlay.
#[derive(Clone, Copy, PartialEq, Eq, Structural, Debug)]
pub enum InputEvent {
    Key(KeyInput),
    Mouse(MouseInput),
    Resized,
    Other,
}

/// Whether `k` is the character key `c` with no modifier.
pub open spec fn is_plain_char(k: KeyInput, c: char) -> bool {
    k.key == Key::Char(c) && k.mods.spec_is_none()
}

pub fn plain_char(k: &KeyInput, c: char) -> (r: bool)
    ensures
        r == is_plain_char(*k, c),
{
    match k.key {
        Key::Char(d) => d == c && k.mods.is_none(),
        _ => false,
    }
}

/// Whether `k` is the character key `c`, whatever the modifiers.
pub fn any_char(k: &KeyInput, c: char) -> (r: bool)
    ensures
        r == (k.key == Key::Char(c)),
{
    match k.key {
        Key::Char(d) => d == c,
        _ => false,
    }
}

} // verus!
