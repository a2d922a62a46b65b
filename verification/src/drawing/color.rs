use vstd::prelude::*;

verus! {

/// The sixteen colors of a terminal palette. A color is known by its name
/// alone; colors are never mixed.
#[derive(Hash, Debug, Copy, Clone, PartialEq, Eq, Structural)]
pub enum Color {
    Black,
    Red,
    Green,
    Yellow,
    Blue,
    Magenta,
    Cyan,
    White,
    DarkGrey,
    DarkRed,
    DarkGreen,
    DarkYellow,
    DarkBlue,
    DarkMagenta,
    DarkCyan,
    Grey,
}

impl Color {
    /// The palette in display order: black, the bright colors, the dark
    /// colors, white.
    pub open spec fn palette() -> Seq<Color> {
        seq![
            Color::Black,
            Color::Grey,
            Color::Red,
            Color::Green,
            Color::Yellow,
            Color::Blue,
            Color::Magenta,
            Color::Cyan,
            Color::DarkGrey,
            Color::DarkRed,
            Color::DarkGreen,
            Color::DarkYellow,
            Color::DarkBlue,
            Color::DarkMagenta,
            Color::DarkCyan,
            Color::White,
        ]
    }

    /// Every color once, in display order.
    pub fn to_vec() -> (colors: Vec<Color>)
        ensures
            colors@ == Color::palette(),
    {
        let mut vec: Vec<Color> = Vec::new();
        vec.push(Color::Black);
        vec.push(Color::Grey);
        vec.push(Color::Red);
        vec.push(Color::Green);
        vec.push(Color::Yellow);
        vec.push(Color::Blue);
        vec.push(Color::Magenta);
        vec.push(Color::Cyan);
        vec.push(Color::DarkGrey);
        vec.push(Color::DarkRed);
        vec.push(Color::DarkGreen);
        vec.push(Color::DarkYellow);
        vec.push(Color::DarkBlue);
        vec.push(Color::DarkMagenta);
        vec.push(Color::DarkCyan);
        vec.push(Color::White);
        assert(vec@ =~= Color::palette());
        vec
    }
}

} // verus!
