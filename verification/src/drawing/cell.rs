use vstd::prelude::*;
use crate::drawing::color::Color;

verus! {

/// One slot of the grid: a character and the two colors it is shown in.
#[derive(Hash, Debug, Copy, Clone, PartialEq, Eq, Structural)]
pub struct Cell {
    pub character: char,
    pub background: Color,
    pub foreground: Color,
}

impl Cell {
    pub fn new(character: char, foreground: Color, background: Color) -> (cell: Cell)
        ensures
            cell == (Cell { character, background, foreground }),
    {
        Cell { character, background, foreground }
    }

    /// A cell in the neutral style: grey on black.
    pub fn default(character: char) -> (cell: Cell)
        ensures
            cell == (Cell { character, background: Color::Black, foreground: Color::Grey }),
    {
        Cell { character, background: Color::Black, foreground: Color::Grey }
    }
}

} // verus!
