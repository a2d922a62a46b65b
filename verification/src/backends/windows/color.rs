use vstd::prelude::*;
use crate::drawing::color::Color;

verus! {

/// The color that the low four bits of the console attribute `color` name.
pub open spec fn color_of_attribute(color: u16) -> Color {
    match color % 16 {
        0 => Color::Black,
        1 => Color::DarkBlue,
        2 => Color::DarkGreen,
        3 => Color::DarkCyan,
        4 => Color::DarkRed,
        5 => Color::DarkMagenta,
        6 => Color::DarkYellow,
        7 => Color::Grey,
        8 => Color::DarkGrey,
        9 => Color::Blue,
        10 => Color::Green,
        11 => Color::Cyan,
        12 => Color::Red,
        13 => Color::Magenta,
        14 => Color::Yellow,
        15 => Color::White,
        _ => Color::Black,
    }
}

/// The color that the low four bits of the console attribute `color` name.
pub fn get_color_from_u16(color: u16) -> (named: Color)
    ensures
        named == color_of_attribute(color),
{
    assert(color & 0x0F == color % 16) by (bit_vector);
    match color & 0x0F {
        0 => Color::Black,
        1 => Color::DarkBlue,
        2 => Color::DarkGreen,
        3 => Color::DarkCyan,
        4 => Color::DarkRed,
        5 => Color::DarkMagenta,
        6 => Color::DarkYellow,
        7 => Color::Grey,
        8 => Color::DarkGrey,
        9 => Color::Blue,
        10 => Color::Green,
        11 => Color::Cyan,
        12 => Color::Red,
        13 => Color::Magenta,
        14 => Color::Yellow,
        15 => Color::White,
        _ => Color::Black,
    }
}

/// The four bits by which the console names `color`.
pub open spec fn attribute_of_color(color: Color) -> u16 {
    match color {
        Color::Black => 0,
        Color::DarkBlue => 1,
        Color::DarkGreen => 2,
        Color::DarkCyan => 3,
        Color::DarkRed => 4,
        Color::DarkMagenta => 5,
        Color::DarkYellow => 6,
        Color::Grey => 7,
        Color::DarkGrey => 8,
        Color::Blue => 9,
        Color::Green => 10,
        Color::Cyan => 11,
        Color::Red => 12,
        Color::Magenta => 13,
        Color::Yellow => 14,
        Color::White => 15,
    }
}

/// The four bits by which the console names `color`.
pub fn get_u16_from_color(color: Color) -> (code: u16)
    ensures
        code == attribute_of_color(color),
        code < 16,
{
    match color {
        Color::Black => 0,
        Color::DarkBlue => 1,
        Color::DarkGreen => 2,
        Color::DarkCyan => 3,
        Color::DarkRed => 4,
        Color::DarkMagenta => 5,
        Color::DarkYellow => 6,
        Color::Grey => 7,
        Color::DarkGrey => 8,
        Color::Blue => 9,
        Color::Green => 10,
        Color::Cyan => 11,
        Color::Red => 12,
        Color::Magenta => 13,
        Color::Yellow => 14,
        Color::White => 15,
    }
}

/// The console names each color by bits of its own: from a color to its
/// bits and back is the color again.
pub proof fn lemma_attribute_round_trip(color: Color)
    ensures
        color_of_attribute(attribute_of_color(color)) == color,
{
}

} // verus!
