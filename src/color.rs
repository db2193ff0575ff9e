use vstd::prelude::*;

verus! {

/// One LED colour: three independent 8-bit channels, no alpha.
#[derive(Clone, Copy, Debug, PartialEq, Eq, Structural)]
pub struct Color {
    pub r: u8,
    pub g: u8,
    pub b: u8,
}

impl Color {
    pub fn new(r: u8, g: u8, b: u8) -> (c: Color)
        ensures
            c == (Color { r, g, b }),
    {
        Color { r, g, b }
    }

    /// Full red, the baseline colour of every effect.
    pub fn red() -> (c: Color)
        ensures
            c == (Color { r: 255, g: 0, b: 0 }),
    {
        Color { r: 255, g: 0, b: 0 }
    }

    pub fn green() -> (c: Color)
        ensures
            c == (Color { r: 0, g: 255, b: 0 }),
    {
        Color { r: 0, g: 255, b: 0 }
    }

    pub fn blue() -> (c: Color)
        ensures
            c == (Color { r: 0, g: 0, b: 255 }),
    {
        Color { r: 0, g: 0, b: 255 }
    }

    /// Red and blue at full strength.
    pub fn magenta() -> (c: Color)
        ensures
            c == (Color { r: 255, g: 0, b: 255 }),
    {
        Color { r: 255, g: 0, b: 255 }
    }

    /// All channels off.
    pub fn black() -> (c: Color)
        ensures
            c == (Color { r: 0, g: 0, b: 0 }),
    {
        Color { r: 0, g: 0, b: 0 }
    }
}

} // verus!
