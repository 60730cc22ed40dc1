//! Keyboard and input events as plain values.

use vstd::prelude::*;

verus! {

/// Bit of the shift modifier.
pub const SHIFT: u8 = 1;

/// Bit of the control modifier.
pub const CONTROL: u8 = 2;

/// Bit of the alt modifier.
pub const ALT: u8 = 4;

/// The key that was pressed.
#[derive(Clone, Copy, Debug, PartialEq, Eq, Structural)]
pub enum KeyCode {
    Backspace,
    Enter,
    Tab,
    Up,
    Down,
    Esc,
    /// A printable character.
    Char(char),
    /// Any key the views do not react to.
    Other,
}

/// The set of modifier keys held during a key press, one bit per modifier.
/// Bits above `ALT` stand for further modifiers that no view reacts to.
#[derive(Clone, Copy, Debug, PartialEq, Eq, Structural)]
pub struct KeyModifiers {
    pub bits: u8,
}

impl KeyModifiers {
    /// No modifier is held.
    pub open spec fn is_none(self) -> bool {
        self.bits == 0
    }

    /// Control is held and nothing else.
    pub open spec fn is_control(self) -> bool {
        self.bits == CONTROL
    }

    /// Control is among the modifiers held.
    pub open spec fn has_control(self) -> bool {
        self.bits & CONTROL != 0
    }

    /// The empty modifier set.
    pub fn none() -> (m: KeyModifiers)
        ensures
            m.bits == 0,
            m.is_none(),
            !m.is_control(),
            !m.has_control(),
    {
        assert(0u8 & 2u8 == 0) by (bit_vector);
        KeyModifiers { bits: 0 }
    }

    /// The modifier set that holds control alone.
    pub fn control() -> (m: KeyModifiers)
        ensures
            m.bits == CONTROL,
            m.is_control(),
            m.has_control(),
    {
        assert(2u8 & 2u8 != 0) by (bit_vector);
        KeyModifiers { bits: CONTROL }
    }

    /// Tells whether no modifier is held.
    pub fn held_none(&self) -> (b: bool)
        ensures
            b == self.is_none(),
    {
        self.bits == 0
    }

    /// Tells whether control is held and nothing else.
    pub fn held_control_only(&self) -> (b: bool)
        ensures
            b == self.is_control(),
    {
        self.bits == CONTROL
    }

    /// Tells whether control is among the modifiers held.
    pub fn holds_control(&self) -> (b: bool)
        ensures
            b == self.has_control(),
    {
        self.bits & CONTROL != 0
    }
}

/// One key press: the key and the modifiers held with it.
#[derive(Clone, Copy, Debug, PartialEq, Eq, Structural)]
pub struct KeyEvent {
    pub code: KeyCode,
    pub modifiers: KeyModifiers,
}

impl KeyEvent {
    /// A key press with the given modifiers.
    pub fn new(code: KeyCode, modifiers: KeyModifiers) -> (k: KeyEvent)
        ensures
            k.code == code,
            k.modifiers == modifiers,
    {
        KeyEvent { code, modifiers }
    }

    /// A key press with no modifier held.
    pub fn plain(code: KeyCode) -> (k: KeyEvent)
        ensures
            k.code == code,
            k.modifiers.bits == 0,
            k.modifiers.is_none(),
            !k.modifiers.is_control(),
            !k.modifiers.has_control(),
    {
        assert(0u8 & 2u8 == 0) by (bit_vector);
        KeyEvent { code, modifiers: KeyModifiers { bits: 0 } }
    }

    /// A key press with control held and nothing else.
    pub fn ctrl(code: KeyCode) -> (k: KeyEvent)
        ensures
            k.code == code,
            k.modifiers.bits == CONTROL,
            k.modifiers.is_control(),
            k.modifiers.has_control(),
            !k.modifiers.is_none(),
    {
        assert(2u8 & 2u8 != 0) by (bit_vector);
        KeyEvent { code, modifiers: KeyModifiers { bits: CONTROL } }
    }
}

/// What the input source delivers to the event loop.
#[derive(Clone, Copy, Debug, PartialEq, Eq, Structural)]
pub enum InputEvent {
    /// A key press.
    Key(KeyEvent),
    /// A pointer event; accepted, and without effect.
    Pointer,
    /// Anything else (focus changes, resizes).
    Other,
}

} // verus!
