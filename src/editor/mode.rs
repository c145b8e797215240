use vstd::prelude::*;

verus! {

/// The editing modes the editor distinguishes. Nothing in the editing loop
/// reads or changes the mode yet.
#[derive(Clone, Copy, Debug, PartialEq, Eq, Structural)]
pub enum Mode {
    /// Moving across the buffer and the editor itself.
    Navigation,
    /// Changing the text of the buffer.
    Edition,
    /// Copying, cutting or moving a block of text.
    Selection,
}

impl Mode {
    pub fn new() -> (r: Self)
        ensures
            r == Mode::Navigation,
    {
        Mode::Navigation
    }

    pub fn switch_to_navigation(&mut self)
        ensures
            *final(self) == Mode::Navigation,
    {
        *self = Mode::Navigation;
    }

    pub fn switch_to_edition(&mut self)
        ensures
            *final(self) == Mode::Edition,
    {
        *self = Mode::Edition;
    }

    pub fn switch_to_selection(&mut self)
        ensures
            *final(self) == Mode::Selection,
    {
        *self = Mode::Selection;
    }

    pub fn is_navigation_mode(&self) -> (r: bool)
        ensures
            r == (*self == Mode::Navigation),
    {
        match *self {
            Mode::Navigation => true,
            Mode::Edition => false,
            Mode::Selection => false,
        }
    }

    pub fn is_edition_mode(&self) -> (r: bool)
        ensures
            r == (*self == Mode::Edition),
    {
        match *self {
            Mode::Navigation => false,
            Mode::Edition => true,
            Mode::Selection => false,
        }
    }

    pub fn is_selection_mode(&self) -> (r: bool)
        ensures
            r == (*self == Mode::Selection),
    {
        match *self {
            Mode::Navigation => false,
            Mode::Edition => false,
            Mode::Selection => true,
        }
    }
}

} // verus!
