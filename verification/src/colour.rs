//! The six sticker colours.

use vstd::prelude::*;

verus! {

/// The colour of one cell. There are exactly six, one per face of a solved
/// cube.
#[derive(Copy, Clone, PartialEq, Eq, Debug, Structural)]
pub enum Colour {
    Green,
    Blue,
    Yellow,
    White,
    Red,
    Orange,
}

impl Colour {
    /// The one-character code of the colour: its capital initial.
    pub open spec fn letter(self) -> char {
        match self {
            Colour::Green => 'G',
            Colour::Blue => 'B',
            Colour::Yellow => 'Y',
            Colour::White => 'W',
            Colour::Red => 'R',
            Colour::Orange => 'O',
        }
    }

    /// Returns the one-character code of the colour.
    pub fn to_char(self) -> (c: char)
        ensures
            c == self.letter(),
    {
        match self {
            Colour::Green => 'G',
            Colour::Blue => 'B',
            Colour::Yellow => 'Y',
            Colour::White => 'W',
            Colour::Red => 'R',
            Colour::Orange => 'O',
        }
    }

    /// Two colours with the same code are the same colour.
    pub proof fn lemma_letter_injective(a: Colour, b: Colour)
        requires
            a.letter() == b.letter(),
        ensures
            a == b,
    {
    }
}

} // verus!
