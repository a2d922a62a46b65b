use vstd::prelude::*;
use crate::drawing::cell::Cell;
use crate::drawing::color::Color;

verus! {

/// The two colors that a cell is shown in.
#[derive(Hash, Debug, Copy, Clone, PartialEq, Eq, Structural)]
pub struct ColorPair {
    pub foreground: Color,
    pub background: Color,
}

impl ColorPair {
    pub fn new(foreground: Color, background: Color) -> (pair: ColorPair)
        ensures
            pair == (ColorPair { foreground, background }),
    {
        ColorPair { foreground, background }
    }

    /// The two colors that `cell` is shown in.
    pub open spec fn of(cell: Cell) -> ColorPair {
        ColorPair { foreground: cell.foreground, background: cell.background }
    }

    /// The two colors that `cell` is shown in.
    pub fn from_cell(cell: Cell) -> (pair: ColorPair)
        ensures
            pair == ColorPair::of(cell),
    {
        ColorPair { foreground: cell.foreground, background: cell.background }
    }
}

/// The number by which curses names `color`.
pub open spec fn curses_color_of(color: Color) -> i16 {
    match color {
        Color::Black => 0,
        Color::DarkRed => 1,
        Color::DarkGreen => 2,
        Color::DarkYellow => 3,
        Color::DarkBlue => 4,
        Color::DarkMagenta => 5,
        Color::DarkCyan => 6,
        Color::Grey => 7,
        Color::DarkGrey => 8,
        Color::Red => 9,
        Color::Green => 10,
        Color::Yellow => 11,
        Color::Blue => 12,
        Color::Magenta => 13,
        Color::Cyan => 14,
        Color::White => 15,
    }
}

/// The number by which curses names `color`.
pub fn color_to_i16(color: Color) -> (code: i16)
    ensures
        code == curses_color_of(color),
        0 <= code < 16,
{
    match color {
        Color::Black => 0,
        Color::DarkRed => 1,
        Color::DarkGreen => 2,
        Color::DarkYellow => 3,
        Color::DarkBlue => 4,
        Color::DarkMagenta => 5,
        Color::DarkCyan => 6,
        Color::Grey => 7,
        Color::DarkGrey => 8,
        Color::Red => 9,
        Color::Green => 10,
        Color::Yellow => 11,
        Color::Blue => 12,
        Color::Magenta => 13,
        Color::Cyan => 14,
        Color::White => 15,
    }
}

} // verus!
