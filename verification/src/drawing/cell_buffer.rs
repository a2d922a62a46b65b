use vstd::prelude::*;
use vstd::std_specs::iter::IteratorSpec;
use std::slice::Iter;
use std::str::Chars;
use crate::drawing::cell::Cell;
use crate::drawing::color::Color;
use crate::drawing::point_2d::Point2d;
use crate::drawing::size_2d::Size2d;

verus! {

broadcast use vstd::std_specs::slice::axiom_spec_slice_iter;

/// A dense grid of cells, stored row by row: the cell at column `x` of row
/// `y` is at offset `x + width * y`.
#[derive(Debug)]
pub struct CellBuffer {
    pub size: Size2d,
    pub cells: Vec<Cell>,
}

impl View for CellBuffer {
    type V = Seq<Cell>;

    /// The cells, row by row.
    open spec fn view(&self) -> Seq<Cell> {
        self.cells@
    }
}

/// Whether `position` names a cell of a grid of extent `size`.
pub open spec fn covers(size: Size2d, position: Point2d) -> bool {
    0 <= position.x < size.width && 0 <= position.y < size.height
}

/// The offset of `position` in the row-by-row order of a grid of extent `size`.
pub open spec fn offset_of(size: Size2d, position: Point2d) -> int {
    position.x + size.width * position.y
}

/// The coordinate that stands for `value`: `value` itself where the
/// coordinate type holds it, and else the coordinate that differs from it by
/// a multiple of 2^32.
pub open spec fn coordinate(value: int) -> i32 {
    let low = value % 0x1_0000_0000;
    if low < 0x8000_0000 {
        low as i32
    } else {
        (low - 0x1_0000_0000) as i32
    }
}

/// The position whose offset is `index` in a grid of extent `size`: the
/// offset counts on along the rows, also below the grid. `None` when the
/// grid has no cells.
pub open spec fn position_of(size: Size2d, index: int) -> Option<Point2d> {
    if size.width == 0 || size.height == 0 {
        None
    } else {
        Some(
            Point2d {
                x: coordinate(index % (size.width as int)),
                y: coordinate(index / (size.width as int)),
            },
        )
    }
}

/// The cells of a grid of extent `size` after `cell` has been put at
/// `position`; nothing changes when the position is off the grid.
pub open spec fn put(size: Size2d, cells: Seq<Cell>, position: Point2d, cell: Cell) -> Seq<Cell> {
    if covers(size, position) {
        cells.update(offset_of(size, position), cell)
    } else {
        cells
    }
}

/// The character `character` in the colors `foreground` on `background`.
pub open spec fn styled(character: char, foreground: Color, background: Color) -> Cell {
    Cell { character, background, foreground }
}

/// How many cells a run of `length` cells that starts at `position` covers
/// before it meets the right edge of a grid of extent `size`; zero when the
/// start is off the grid.
pub open spec fn run_length(size: Size2d, position: Point2d, length: int) -> int {
    if !covers(size, position) {
        0
    } else if length <= size.width - position.x {
        length
    } else {
        size.width - position.x
    }
}

/// The cells of a grid of extent `size` after the run `run` has been laid
/// along the row of `position`, starting there and cut at the right edge.
pub open spec fn with_run(size: Size2d, cells: Seq<Cell>, position: Point2d, run: Seq<Cell>) -> Seq<
    Cell,
> {
    let start = offset_of(size, position);
    let count = run_length(size, position, run.len() as int);
    Seq::new(
        cells.len(),
        |i: int|
            if start <= i < start + count {
                run[i - start]
            } else {
                cells[i]
            },
    )
}

/// The run that shows `text` in the colors `foreground` on `background`.
pub open spec fn styled_run(text: Seq<char>, foreground: Color, background: Color) -> Seq<Cell> {
    Seq::new(text.len(), |i: int| styled(text[i], foreground, background))
}

/// The cells of a grid of extent `size` after the grid `source`, of extent
/// `source_size`, has been laid over it with its first cell at `position`.
/// What falls outside the grid is cut off.
pub open spec fn with_overlay(
    size: Size2d,
    cells: Seq<Cell>,
    source_size: Size2d,
    source: Seq<Cell>,
    position: Point2d,
) -> Seq<Cell> {
    Seq::new(
        cells.len(),
        |i: int|
            {
                let x = i % (size.width as int);
                let y = i / (size.width as int);
                let source_x = x - position.x;
                let source_y = y - position.y;
                if 0 <= source_x < source_size.width && 0 <= source_y < source_size.height {
                    source[source_x + source_size.width * source_y]
                } else {
                    cells[i]
                }
            },
    )
}

/// In a grid `width` wide and `height` high, column `x` of row `y` has the
/// offset `x + width * y`, which is below the number of cells and is the
/// offset of no other cell.
pub proof fn lemma_grid_offset(width: int, height: int, x: int, y: int)
    requires
        0 <= x < width,
        0 <= y < height,
    ensures
        0 <= x + width * y < width * height,
        (x + width * y) % width == x,
        (x + width * y) / width == y,
{
    assert(0 <= width * y && width * y + width <= width * height) by (nonlinear_arith)
        requires
            0 <= y < height,
            0 < width,
    ;
    vstd::arithmetic::div_mod::lemma_fundamental_div_mod_converse(x + width * y, width, y, x);
}

/// In a grid `width` wide and `height` high, the offset `index` below the
/// number of cells is that of column `index % width` of row `index / width`.
pub proof fn lemma_grid_coordinates(width: int, height: int, index: int)
    requires
        0 <= width,
        0 <= index < width * height,
    ensures
        width > 0,
        0 <= index % width < width,
        0 <= index / width < height,
        index % width + width * (index / width) == index,
{
    assert(width > 0) by (nonlinear_arith)
        requires
            0 <= index < width * height,
            0 <= width,
    ;
    vstd::arithmetic::div_mod::lemma_fundamental_div_mod(index, width);
    let q = index / width;
    assert(0 <= q < height) by (nonlinear_arith)
        requires
            0 <= index < width * height,
            0 < width,
            index == width * q + index % width,
            0 <= index % width < width,
    ;
}

/// A cell of the grid has an offset below the number of cells.
pub proof fn lemma_offset_in_range(size: Size2d, position: Point2d)
    requires
        covers(size, position),
    ensures
        0 <= offset_of(size, position) < size.width * size.height,
        offset_of(size, position) % (size.width as int) == position.x,
        offset_of(size, position) / (size.width as int) == position.y,
{
    lemma_grid_offset(
        size.width as int,
        size.height as int,
        position.x as int,
        position.y as int,
    );
}

/// The coordinate that stands for `value`.
fn as_coordinate(value: usize) -> (coordinate: i32)
    ensures
        coordinate == self::coordinate(value as int),
{
    let low = (value as u64) % 0x1_0000_0000;
    if low < 0x8000_0000 {
        low as i32
    } else {
        (low as i64 - 0x1_0000_0000) as i32
    }
}

impl CellBuffer {
    /// The grid holds exactly `width * height` cells.
    pub open spec fn wf(&self) -> bool {
        self.cells@.len() == self.size.width * self.size.height
    }

    /// A grid of extent `size` with `default_cell` in every cell.
    pub fn new(default_cell: Cell, size: Size2d) -> (buffer: CellBuffer)
        requires
            size.width * size.height <= usize::MAX,
        ensures
            buffer.wf(),
            buffer.size == size,
            buffer@ == Seq::new(size.area(), |i: int| default_cell),
    {
        let cells = vec![default_cell; size.width * size.height];
        assert(cells@ =~= Seq::new(size.area(), |i: int| default_cell));
        CellBuffer { size, cells }
    }

    /// An iterator over the cells, row by row.
    pub fn iter(&self) -> (cells: Iter<'_, Cell>)
        ensures
            cells.remaining() == self@.as_ref(),
    {
        self.cells.iter()
    }

    /// Gives the grid the extent `new_size`. A grid that already has it is
    /// left as it is; any other is filled anew with `default_cell`.
    pub fn resize(&mut self, default_cell: Cell, new_size: Size2d)
        requires
            old(self).wf(),
            new_size.width * new_size.height <= usize::MAX,
        ensures
            final(self).wf(),
            final(self).size == new_size,
            new_size == old(self).size ==> final(self)@ == old(self)@,
            new_size != old(self).size ==> final(self)@ == Seq::new(
                new_size.area(),
                |i: int| default_cell,
            ),
    {
        if new_size == self.size {
            return ;
        }
        *self = CellBuffer::new(default_cell, new_size);
    }

    /// The offset of the cell at `position`, or `None` for a position off
    /// the grid.
    pub fn index_of(&self, position: Point2d) -> (index: Option<usize>)
        requires
            self.wf(),
        ensures
            covers(self.size, position) ==> index is Some && index->0 == offset_of(
                self.size,
                position,
            ) && index->0 < self@.len(),
            !covers(self.size, position) ==> index is None,
    {
        if position.x < 0 || position.y < 0 {
            return None;
        }
        let ux = position.x as usize;
        let uy = position.y as usize;
        if ux >= self.size.width || uy >= self.size.height {
            return None;
        }
        let count = self.cells.len();
        proof {
            lemma_offset_in_range(self.size, position);
            assert(0 <= self.size.width * uy) by (nonlinear_arith);
        }
        Some(ux + self.size.width * uy)
    }

    /// The position of the cell at offset `index`, or `None` when the grid
    /// has no cells.
    pub fn coordinates_of(&self, index: usize) -> (position: Option<Point2d>)
        ensures
            position == position_of(self.size, index as int),
            position is None <==> self.size.width == 0 || self.size.height == 0,
    {
        if self.size.width == 0 || self.size.height == 0 {
            return None;
        }
        Some(
            Point2d::new(
                as_coordinate(index % self.size.width),
                as_coordinate(index / self.size.width),
            ),
        )
    }

    /// The cell at `position`, or `None` for a position off the grid.
    pub fn get(&self, position: Point2d) -> (cell: Option<Cell>)
        requires
            self.wf(),
        ensures
            cell == if covers(self.size, position) {
                Some(self@[offset_of(self.size, position)])
            } else {
                None
            },
    {
        match self.index_of(position) {
            Some(index) => Some(self.cells[index]),
            None => None,
        }
    }

    /// Puts `cell` at `position`. A position off the grid changes nothing.
    pub fn set(&mut self, position: Point2d, cell: Cell)
        requires
            old(self).wf(),
        ensures
            final(self).wf(),
            final(self).size == old(self).size,
            final(self)@ == put(old(self).size, old(self)@, position, cell),
    {
        let index = match self.index_of(position) {
            Some(index) => index,
            None => {
                return ;
            },
        };
        self.cells[index] = cell;
    }

    /// Writes the characters that `text` still holds along the row of
    /// `position`, one to a cell, each in the colors `foreground` on
    /// `background`. The text is cut at the right edge of the grid; a start
    /// off the grid writes nothing.
    #[verifier::rlimit(50)]
    pub fn write_chars(
        &mut self,
        text: Chars,
        position: Point2d,
        foreground: Color,
        background: Color,
    )
        requires
            old(self).wf(),
        ensures
            final(self).wf(),
            final(self).size == old(self).size,
            final(self)@ == with_run(
                old(self).size,
                old(self)@,
                position,
                styled_run(text.remaining(), foreground, background),
            ),
    {
        broadcast use vstd::string::next_postcondition;

        let ghost all = text.remaining();
        let ghost before = self@;
        let start = match self.index_of(position) {
            Some(index) => index,
            None => {
                assert(self@ =~= with_run(
                    self.size,
                    self@,
                    position,
                    styled_run(all, foreground, background),
                ));
                return ;
            },
        };
        proof {
            lemma_offset_in_range(self.size, position);
            lemma_row_in_range(self.size, position);
        }
        let room = self.size.width - position.x as usize;
        let total = self.cells.len();
        let mut text = text;
        let mut written: usize = 0;
        loop
            invariant
                self.wf(),
                self.size == old(self).size,
                covers(self.size, position),
                start == offset_of(self.size, position),
                room == self.size.width - position.x,
                start + room <= self@.len(),
                self@.len() == total,
                written <= room,
                written <= all.len(),
                text.remaining() == all.skip(written as int),
                self@.len() == before.len(),
                forall|i: int|
                    0 <= i < before.len() ==> self@[i] == if start <= i < start + written {
                        styled(all[i - start], foreground, background)
                    } else {
                        before[i]
                    },
            ensures
                written == run_length(self.size, position, all.len() as int),
            decreases room - written,
        {
            if written >= room {
                break ;
            }
            match text.next() {
                Some(character) => {
                    self.cells[start + written] = Cell::new(character, foreground, background);
                    written += 1;
                },
                None => {
                    break ;
                },
            }
        }
        assert(self@ =~= with_run(
            self.size,
            before,
            position,
            styled_run(all, foreground, background),
        ));
    }

    /// Writes `text` along the row of `position`, one character to a cell,
    /// each in the colors `foreground` on `background`. The text is cut at
    /// the right edge of the grid; a start off the grid writes nothing.
    pub fn write_str(
        &mut self,
        text: &str,
        position: Point2d,
        foreground: Color,
        background: Color,
    )
        requires
            old(self).wf(),
        ensures
            final(self).wf(),
            final(self).size == old(self).size,
            final(self)@ == with_run(
                old(self).size,
                old(self)@,
                position,
                styled_run(text@, foreground, background),
            ),
    {
        broadcast use vstd::string::axiom_spec_iter;

        self.write_chars(text.chars(), position, foreground, background);
    }

    /// Puts `cell` in `length` cells along the row of `position`, starting
    /// there. The run is cut at the right edge of the grid; a start off the
    /// grid writes nothing.
    pub fn repeat_cell(&mut self, cell: Cell, position: Point2d, length: usize)
        requires
            old(self).wf(),
        ensures
            final(self).wf(),
            final(self).size == old(self).size,
            final(self)@ == with_run(
                old(self).size,
                old(self)@,
                position,
                Seq::new(length as nat, |i: int| cell),
            ),
    {
        let ghost before = self@;
        let start = match self.index_of(position) {
            Some(index) => index,
            None => {
                assert(self@ =~= with_run(
                    self.size,
                    self@,
                    position,
                    Seq::new(length as nat, |i: int| cell),
                ));
                return ;
            },
        };
        proof {
            lemma_offset_in_range(self.size, position);
            lemma_row_in_range(self.size, position);
        }
        let room = self.size.width - position.x as usize;
        let count = if length <= room {
            length
        } else {
            room
        };
        let total = self.cells.len();
        let mut written: usize = 0;
        while written < count
            invariant
                self.wf(),
                self.size == old(self).size,
                start + count <= self@.len(),
                self@.len() == total,
                written <= count,
                self@.len() == before.len(),
                forall|i: int|
                    0 <= i < before.len() ==> self@[i] == if start <= i < start + written {
                        cell
                    } else {
                        before[i]
                    },
            decreases count - written,
        {
            self.cells[start + written] = cell;
            written += 1;
        }
        assert(self@ =~= with_run(
            self.size,
            before,
            position,
            Seq::new(length as nat, |i: int| cell),
        ));
    }

    /// Lays the grid `cell_buffer` over this one, with its first cell at
    /// `position`. What falls outside this grid is cut off.
    #[verifier::rlimit(50)]
    pub fn write_cell_buffer(&mut self, cell_buffer: &CellBuffer, position: Point2d)
        requires
            old(self).wf(),
            cell_buffer.wf(),
        ensures
            final(self).wf(),
            final(self).size == old(self).size,
            final(self)@ == with_overlay(
                old(self).size,
                old(self)@,
                cell_buffer.size,
                cell_buffer@,
                position,
            ),
    {
        let ghost before = self@;
        let total = self.cells.len();
        let source_total = cell_buffer.cells.len();
        let width = self.size.width as i128;
        let height = self.size.height as i128;
        let source_width = cell_buffer.size.width as i128;
        let source_height = cell_buffer.size.height as i128;
        let left = position.x as i128;
        let top = position.y as i128;
        let first_x = if left > 0 {
            left
        } else {
            0
        };
        let first_y = if top > 0 {
            top
        } else {
            0
        };
        let last_x = if left + source_width < width {
            left + source_width
        } else {
            width
        };
        let last_y = if top + source_height < height {
            top + source_height
        } else {
            height
        };
        let mut y = first_y;
        while y < last_y
            invariant
                self.wf(),
                self.size == old(self).size,
                cell_buffer.wf(),
                total == self@.len(),
                source_total == cell_buffer@.len(),
                before.len() == total,
                width == self.size.width,
                height == self.size.height,
                source_width == cell_buffer.size.width,
                source_height == cell_buffer.size.height,
                left == position.x,
                top == position.y,
                0 <= first_x,
                0 <= first_y <= y,
                y <= last_y || y == first_y,
                left <= first_x,
                top <= first_y,
                last_x <= width,
                last_x <= left + source_width,
                last_y <= height,
                last_y <= top + source_height,
                forall|i: int|
                    0 <= i < total ==> self@[i] == if first_y <= i / (width as int) < y && first_x
                        <= i % (width as int) < last_x {
                        cell_buffer@[i % (width as int) - left + source_width * (i / (
                        width as int) - top)]
                    } else {
                        before[i]
                    },
            decreases last_y - y,
        {
            let mut x = first_x;
            while x < last_x
                invariant
                    self.wf(),
                    self.size == old(self).size,
                    cell_buffer.wf(),
                    total == self@.len(),
                    source_total == cell_buffer@.len(),
                    before.len() == total,
                    width == self.size.width,
                    height == self.size.height,
                    source_width == cell_buffer.size.width,
                    source_height == cell_buffer.size.height,
                    left == position.x,
                    top == position.y,
                    0 <= first_x <= x,
                    0 <= first_y <= y < last_y,
                    left <= first_x,
                    top <= first_y,
                    last_x <= width,
                    last_x <= left + source_width,
                    last_y <= height,
                    last_y <= top + source_height,
                    forall|i: int|
                        0 <= i < total ==> self@[i] == if first_x <= i % (width as int) < last_x
                            && (first_y <= i / (width as int) < y || (i / (width as int) == y && i
                            % (width as int) < x)) {
                            cell_buffer@[i % (width as int) - left + source_width * (i / (
                            width as int) - top)]
                        } else {
                            before[i]
                        },
                decreases last_x - x,
            {
                proof {
                    lemma_grid_offset(width as int, height as int, x as int, y as int);
                    lemma_grid_offset(
                        source_width as int,
                        source_height as int,
                        x - left,
                        y - top,
                    );
                    assert(width * y == (width as int) * (y as int));
                    assert(source_width * (y - top) == (source_width as int) * (y - top));
                }
                let target = (x + width * y) as usize;
                let origin = ((x - left) + source_width * (y - top)) as usize;
                let ghost previous = self@;
                self.cells[target] = cell_buffer.cells[origin];
                assert forall|i: int| 0 <= i < total implies self@[i] == if first_x <= i % (
                width as int) < last_x && (first_y <= i / (width as int) < y || (i / (
                width as int) == y && i % (width as int) < x + 1)) {
                    cell_buffer@[i % (width as int) - left + source_width * (i / (width as int)
                        - top)]
                } else {
                    before[i]
                } by {
                    lemma_grid_coordinates(width as int, height as int, i);
                    if i != target {
                        assert(self@[i] == previous[i]);
                    }
                }
                x += 1;
            }
            y += 1;
        }
        assert forall|i: int| 0 <= i < total implies self@[i] == with_overlay(
            self.size,
            before,
            cell_buffer.size,
            cell_buffer@,
            position,
        )[i] by {
            lemma_grid_coordinates(width as int, height as int, i);
        }
        assert(self@ =~= with_overlay(
            self.size,
            before,
            cell_buffer.size,
            cell_buffer@,
            position,
        ));
    }
}

/// From the position of a cell to its offset and back is the position again.
pub proof fn lemma_position_round_trip(size: Size2d, position: Point2d)
    requires
        covers(size, position),
    ensures
        position_of(size, offset_of(size, position)) == Some(position),
{
    lemma_offset_in_range(size, position);
}

/// From the offset of a cell to its position and back is the offset again,
/// wherever the coordinate type holds the column and the row of the cell.
pub proof fn lemma_offset_round_trip(size: Size2d, index: int)
    requires
        0 <= index < size.width * size.height,
        index % (size.width as int) <= i32::MAX,
        index / (size.width as int) <= i32::MAX,
    ensures
        position_of(size, index) is Some,
        covers(size, position_of(size, index)->0),
        offset_of(size, position_of(size, index)->0) == index,
{
    lemma_grid_coordinates(size.width as int, size.height as int, index);
}

/// Putting a cell where a cell was put before leaves the later one only.
pub proof fn lemma_put_twice(
    size: Size2d,
    cells: Seq<Cell>,
    position: Point2d,
    first: Cell,
    second: Cell,
)
    requires
        cells.len() == size.width * size.height,
    ensures
        put(size, put(size, cells, position, first), position, second) == put(
            size,
            cells,
            position,
            second,
        ),
{
    if covers(size, position) {
        lemma_offset_in_range(size, position);
    }
    assert(put(size, put(size, cells, position, first), position, second) =~= put(
        size,
        cells,
        position,
        second,
    ));
}

/// The row of a cell ends within the grid.
pub proof fn lemma_row_in_range(size: Size2d, position: Point2d)
    requires
        covers(size, position),
    ensures
        offset_of(size, position) + (size.width - position.x) <= size.width * size.height,
{
    let w = size.width as int;
    let h = size.height as int;
    let y = position.y as int;
    assert(w * y + w <= w * h) by (nonlinear_arith)
        requires
            0 <= y < h,
            0 < w,
    ;
}

} // verus!
