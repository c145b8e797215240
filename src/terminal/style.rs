use vstd::prelude::*;

verus! {

/// A colour to paint text or its background with.
#[derive(Clone, Copy, Debug, PartialEq, Eq, Structural)]
pub enum Color {
    Black,
    Red,
    Green,
    Blue,
    White,
    Yellow,
    Grey,
    Rgb { red: u8, green: u8, blue: u8 },
}

} // verus!
