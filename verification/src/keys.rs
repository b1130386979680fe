//! Key presses.

use vstd::prelude::*;

verus! {

/// The keys that the panel tells apart.
#[derive(Debug, Clone, Copy, PartialEq, Eq, Structural)]
pub enum KeyCode {
    Backspace,
    Enter,
    Left,
    Right,
    Up,
    Down,
    Home,
    End,
    PageUp,
    PageDown,
    Tab,
    BackTab,
    Delete,
    Esc,
    /// A key that types this character.
    Char(char),
    /// Any other key.
    Other,
}

/// The bit that is set in `KeyEvent::modifiers` while Control is held.
pub const CONTROL: u8 = 0b10;

/// The bit that is set in `KeyEvent::modifiers` while Alt is held.
pub const ALT: u8 = 0b100;

/// One key press.
#[derive(Debug, Clone, Copy, PartialEq, Eq, Structural)]
pub struct KeyEvent {
    pub code: KeyCode,
    /// The bits of the modifier keys that were held.
    pub modifiers: u8,
}

/// Calls `KeyModifiers::contains` of crossterm on modifiers given by their
/// bits: whether every bit of `flag` is set in `modifiers`.
#[verifier::external_body]
pub(crate) fn modifiers_contain(modifiers: u8, flag: u8) -> (r: bool)
    ensures
        r == (modifiers & flag == flag),
{
    crossterm::event::KeyModifiers::from_bits_retain(modifiers).contains(
        crossterm::event::KeyModifiers::from_bits_retain(flag),
    )
}

impl KeyEvent {
    /// Whether Control was held.
    pub open spec fn spec_ctrl(self) -> bool {
        self.modifiers & CONTROL == CONTROL
    }

    /// Whether Alt was held.
    pub open spec fn spec_alt(self) -> bool {
        self.modifiers & ALT == ALT
    }

    /// Whether Control was held.
    pub fn ctrl(&self) -> (r: bool)
        ensures
            r == self.spec_ctrl(),
    {
        modifiers_contain(self.modifiers, CONTROL)
    }

    /// Whether Alt was held.
    pub fn alt(&self) -> (r: bool)
        ensures
            r == self.spec_alt(),
    {
        modifiers_contain(self.modifiers, ALT)
    }
}

} // verus!
