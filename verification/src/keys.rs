//! Key presses as the interface reads them: which key, which modifiers were held, and
//! whether the key went down, repeated or came up.
use vstd::prelude::*;

verus! {

/// The modifier keys held during a key event.
#[derive(Debug, Clone, Copy, PartialEq, Eq, Structural)]
pub struct KeyMods {
    pub shift: bool,
    pub control: bool,
    pub alt: bool,
    /// Super, Hyper or Meta.
    pub other: bool,
}

impl KeyMods {
    /// No modifier held.
    pub fn none() -> (r: KeyMods)
        ensures
            r.is_empty_spec(),
    {
        KeyMods { shift: false, control: false, alt: false, other: false }
    }

    pub open spec fn is_empty_spec(self) -> bool {
        !self.shift && !self.control && !self.alt && !self.other
    }

    /// Only `Alt` is held.
    pub open spec fn is_alt_only(self) -> bool {
        self.alt && !self.shift && !self.control && !self.other
    }

    /// No modifier is held.
    pub fn is_empty(&self) -> (r: bool)
        ensures
            r == self.is_empty_spec(),
    {
        !self.shift && !self.control && !self.alt && !self.other
    }
}

/// The key of a key event.
#[derive(Debug, Clone, Copy, PartialEq, Eq, Structural)]
pub enum KeyCodeInput {
    Backspace,
    Enter,
    Left,
    Right,
    Up,
    Down,
    Home,
    End,
    PageUp,
    PageDown,
    Tab,
    BackTab,
    Delete,
    Insert,
    F(u8),
    Char(char),
    Null,
    Esc,
    /// A key this interface has no binding for (lock keys, media keys, ...).
    Other,
}

/// Whether the key went down, repeats, or came up.
#[derive(Debug, Clone, Copy, PartialEq, Eq, Structural)]
pub enum KeyPhase {
    Press,
    Repeat,
    Release,
}

/// One key event.
#[derive(Debug, Clone, Copy, PartialEq, Eq, Structural)]
pub struct KeyInput {
    pub code: KeyCodeInput,
    pub modifiers: KeyMods,
    pub phase: KeyPhase,
}

impl KeyInput {
    /// A press of `code` with `modifiers` held.
    pub fn new(code: KeyCodeInput, modifiers: KeyMods) -> (r: KeyInput)
        ensures
            r.code == code,
            r.modifiers == modifiers,
            r.phase == KeyPhase::Press,
    {
        KeyInput { code, modifiers, phase: KeyPhase::Press }
    }
}

} // verus!
