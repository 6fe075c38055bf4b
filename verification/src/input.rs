//! The input surface of the core: discrete key-press events with the
//! keys the modal loop interprets and a control-modifier flag. Mouse
//! events and any other terminal input are not part of this model.

use vstd::prelude::*;

verus! {

/// A key reported by the terminal, reduced to what the core reads.
#[derive(Clone, Copy, Debug, PartialEq, Eq)]
pub enum Key {
    /// A literal character.
    Char(char),
    Enter,
    Esc,
    Backspace,
    Delete,
    Left,
    Right,
    Home,
    End,
    /// Any key the core does not interpret.
    Other,
}

/// One key-press event: the key itself and whether control was held.
#[derive(Clone, Copy, Debug, PartialEq, Eq)]
pub struct KeyEvent {
    pub key: Key,
    pub ctrl: bool,
}

} // verus!
