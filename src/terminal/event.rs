use vstd::prelude::*;

verus! {

/// An input event, as the terminal reports it.
#[derive(Clone, Copy, Debug, PartialEq, Eq, Structural)]
pub enum Event {
    KeyPressed(Key),
    CtrlKeyPressed(Key),
    WindowResized(usize, usize),
    Unknown,
}

/// A key, pressed alone or with a modifier.
#[derive(Clone, Copy, Debug, PartialEq, Eq, Structural)]
pub enum Key {
    Char(char),
    Backspace,
    Enter,
    LeftArrow,
    RightArrow,
    UpArrow,
    DownArrow,
    Tab,
    Esc,
}

} // verus!
