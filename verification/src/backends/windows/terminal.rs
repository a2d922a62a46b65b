use vstd::prelude::*;
use crate::backends::windows::color::{attribute_of_color, get_u16_from_color};
use crate::drawing::cell::Cell;
use crate::drawing::size_2d::Size2d;

verus! {

/// The extent, in cells, of the window of the console whose first column
/// is `left`, whose last column is `right`, whose first row is `top` and
/// whose last row is `bottom`.
pub fn console_size(left: i16, top: i16, right: i16, bottom: i16) -> (size: Size2d)
    requires
        left <= right + 1,
        top <= bottom + 1,
    ensures
        size.width == right - left + 1,
        size.height == bottom - top + 1,
{
    Size2d::new((right as i32 - left as i32 + 1) as usize, (bottom as i32 - top as i32 + 1) as usize)
}

/// The extent of a cell in the units of the window: the extent `client` of
/// the inside of the window, shared out evenly among the cells of a console
/// of extent `console`. Nothing for a console without cells.
pub fn char_size(console: Size2d, client: Size2d) -> (size: Size2d)
    ensures
        size == if console.width == 0 || console.height == 0 {
            (Size2d { width: 0, height: 0 })
        } else {
            (Size2d {
                width: (client.width / console.width) as usize,
                height: (client.height / console.height) as usize,
            })
        },
{
    if console.width == 0 || console.height == 0 {
        return Size2d::empty();
    }
    Size2d::new(client.width / console.width, client.height / console.height)
}

/// The attributes by which the console shows `cell`: the bits of its color
/// in the low four bits and those of its ground in the four above.
pub open spec fn attributes_of(cell: Cell) -> u16 {
    (attribute_of_color(cell.foreground) + 16 * attribute_of_color(cell.background)) as u16
}

/// The attributes by which the console shows `cell`.
pub fn cell_attributes(cell: Cell) -> (attributes: u16)
    ensures
        attributes == attributes_of(cell),
        attributes < 256,
{
    let foreground = get_u16_from_color(cell.foreground);
    let background = get_u16_from_color(cell.background);
    assert(foreground | (background << 4) == foreground + 16 * background) by (bit_vector)
        requires
            foreground < 16,
            background < 16,
    ;
    foreground | (background << 4)
}

/// The UTF-16 code unit by which the console shows `character`: its code,
/// where that fits in sixteen bits, and the low sixteen bits of its code
/// otherwise.
pub fn code_unit(character: char) -> (unit: u16)
    ensures
        unit == (character as u32) % 0x1_0000,
{
    ((character as u32) % 0x1_0000) as u16
}

} // verus!
