use vstd::prelude::*;
use vstd::string::StringExecFns;
use crate::backends::termion::color::{ansi_value_of, color_to_u8};
use crate::drawing::cell::Cell;
use crate::drawing::cell_buffer::CellBuffer;
use crate::drawing::point_2d::Point2d;
use crate::text::decimal;

verus! {

/// The escape sequence that sets the color of the text to the color number
/// `value` of the 256 colors.
pub open spec fn foreground_sequence(value: u8) -> Seq<char> {
    "\x1b[38;5;"@ + decimal(value as nat) + "m"@
}

/// The escape sequence that sets the color of the ground to the color number
/// `value` of the 256 colors.
pub open spec fn background_sequence(value: u8) -> Seq<char> {
    "\x1b[48;5;"@ + decimal(value as nat) + "m"@
}

/// The escape sequence that moves the cursor to the column `column` of the
/// row `row`, both counted from one.
pub open spec fn goto_sequence(column: u16, row: u16) -> Seq<char> {
    "\x1b["@ + decimal(row as nat) + ";"@ + decimal(column as nat) + "H"@
}

/// What `termion::color::Fg` of a `termion::color::AnsiValue` is displayed
/// as: the introducer of a control sequence, `38;5;`, the color number in
/// decimal digits, and `m`.
#[verifier::external_body]
fn foreground_code(value: u8) -> (code: String)
    ensures
        code@ == foreground_sequence(value),
{
    format!("{}", ::termion::color::Fg(::termion::color::AnsiValue(value)))
}

/// What `termion::color::Bg` of a `termion::color::AnsiValue` is displayed
/// as: the introducer of a control sequence, `48;5;`, the color number in
/// decimal digits, and `m`.
#[verifier::external_body]
fn background_code(value: u8) -> (code: String)
    ensures
        code@ == background_sequence(value),
{
    format!("{}", ::termion::color::Bg(::termion::color::AnsiValue(value)))
}

/// What `termion::cursor::Goto` is displayed as: the introducer of a
/// control sequence, the row, `;`, the column, and `H`. Both are counted
/// from one; `Goto` refuses the column and the row zero together.
#[verifier::external_body]
fn goto_code(column: u16, row: u16) -> (code: String)
    requires
        column != 0 || row != 0,
    ensures
        code@ == goto_sequence(column, row),
{
    format!("{}", ::termion::cursor::Goto(column, row))
}

/// What `termion::cursor::Hide` is displayed as.
#[verifier::external_body]
fn hide_code() -> (code: String)
    ensures
        code@ == "\x1b[?25l"@,
{
    format!("{}", ::termion::cursor::Hide)
}

/// What `termion::cursor::Show` is displayed as.
#[verifier::external_body]
fn show_code() -> (code: String)
    ensures
        code@ == "\x1b[?25h"@,
{
    format!("{}", ::termion::cursor::Show)
}

/// What `termion::clear::All` is displayed as.
#[verifier::external_body]
fn clear_all_code() -> (code: String)
    ensures
        code@ == "\x1b[2J"@,
{
    format!("{}", ::termion::clear::All)
}

/// What is sent to the terminal to show or to hide the cursor.
pub fn cursor_visibility_code(visible: bool) -> (code: String)
    ensures
        code@ == if visible {
            "\x1b[?25h"@
        } else {
            "\x1b[?25l"@
        },
{
    if visible {
        show_code()
    } else {
        hide_code()
    }
}

/// What is sent to the terminal to clear the screen.
pub fn clear_code() -> (code: String)
    ensures
        code@ == "\x1b[2J"@,
{
    clear_all_code()
}

/// What is sent to the terminal to move the cursor to the cell at
/// `position`. The terminal counts columns and rows from one, in sixteen
/// bits.
pub fn cursor_code(position: Point2d) -> (code: String)
    requires
        0 <= position.x < u16::MAX,
        0 <= position.y < u16::MAX,
    ensures
        code@ == goto_sequence((position.x + 1) as u16, (position.y + 1) as u16),
{
    goto_code(position.x as u16 + 1, position.y as u16 + 1)
}

/// What is sent to the terminal to show `cell`: its ground, its color and
/// its character.
pub open spec fn cell_text(cell: Cell) -> Seq<char> {
    background_sequence(ansi_value_of(cell.background)) + foreground_sequence(
        ansi_value_of(cell.foreground),
    ) + seq![cell.character]
}

/// What is sent to the terminal to show `cells`, one after the other.
pub open spec fn cells_text(cells: Seq<Cell>) -> Seq<char>
    decreases cells.len(),
{
    if cells.len() == 0 {
        Seq::empty()
    } else {
        cells_text(cells.drop_last()) + cell_text(cells.last())
    }
}

/// What is sent to the terminal, with the cursor at the first cell, to show
/// the whole of `cell_buffer`. The terminal wraps at the end of each row.
pub fn render(cell_buffer: &CellBuffer) -> (text: String)
    ensures
        text@ == cells_text(cell_buffer@),
{
    let mut buffer = String::new();
    let count = cell_buffer.cells.len();
    let mut index: usize = 0;
    proof {
        assert(cell_buffer@.take(0) =~= Seq::<Cell>::empty());
    }
    while index < count
        invariant
            index <= count,
            count == cell_buffer@.len(),
            buffer@ == cells_text(cell_buffer@.take(index as int)),
        decreases count - index,
    {
        let cell = cell_buffer.cells[index];
        let background = background_code(color_to_u8(cell.background));
        let foreground = foreground_code(color_to_u8(cell.foreground));
        buffer.append(background.as_str());
        buffer.append(foreground.as_str());
        buffer.push(cell.character);
        proof {
            assert(cell_buffer@.take(index + 1).drop_last() =~= cell_buffer@.take(index as int));
            assert(buffer@ =~= cells_text(cell_buffer@.take(index as int)) + cell_text(cell));
        }
        index += 1;
    }
    proof {
        assert(cell_buffer@.take(count as int) =~= cell_buffer@);
    }
    buffer
}

} // verus!
