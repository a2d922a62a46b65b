use tokterm::drawing::cell::Cell;
use tokterm::drawing::cell_buffer::CellBuffer;
use tokterm::drawing::color::Color;
use tokterm::drawing::point_2d::Point2d;
use tokterm::drawing::size_2d::Size2d;

fn ground() -> Cell {
    Cell::new('.', Color::Grey, Color::Black)
}

fn row(buffer: &CellBuffer, y: i32) -> String {
    (0..buffer.size.width as i32)
        .map(|x| buffer.get(Point2d::new(x, y)).unwrap().character)
        .collect()
}

#[test]
fn new_buffer_holds_the_default_cell_everywhere() {
    let buffer = CellBuffer::new(ground(), Size2d::new(4, 3));
    assert_eq!(buffer.size, Size2d::new(4, 3));
    assert_eq!(buffer.iter().count(), 12);
    for cell in buffer.iter() {
        assert_eq!(*cell, ground());
    }
}

#[test]
fn empty_buffer_has_no_cells() {
    let buffer = CellBuffer::new(ground(), Size2d::empty());
    assert_eq!(buffer.iter().count(), 0);
    assert_eq!(buffer.index_of(Point2d::new(0, 0)), None);
    assert_eq!(buffer.coordinates_of(0), None);
    assert_eq!(buffer.get(Point2d::new(0, 0)), None);
}

#[test]
fn position_and_offset_are_inverse() {
    let buffer = CellBuffer::new(ground(), Size2d::new(7, 5));
    for y in 0..5 {
        for x in 0..7 {
            let position = Point2d::new(x, y);
            let index = buffer.index_of(position).unwrap();
            assert_eq!(index, (x + 7 * y) as usize);
            assert_eq!(buffer.coordinates_of(index), Some(position));
        }
    }
    for index in 0..35 {
        let position = buffer.coordinates_of(index).unwrap();
        assert_eq!(buffer.index_of(position), Some(index));
    }
}

#[test]
fn index_of_refuses_what_is_off_the_grid() {
    let buffer = CellBuffer::new(ground(), Size2d::new(7, 5));
    assert_eq!(buffer.index_of(Point2d::new(-1, 0)), None);
    assert_eq!(buffer.index_of(Point2d::new(0, -1)), None);
    assert_eq!(buffer.index_of(Point2d::new(7, 0)), None);
    assert_eq!(buffer.index_of(Point2d::new(0, 5)), None);
    assert_eq!(buffer.index_of(Point2d::new(6, 4)), Some(34));
    assert_eq!(buffer.index_of(Point2d::new(i32::MAX, i32::MAX)), None);
    assert_eq!(buffer.index_of(Point2d::new(i32::MIN, i32::MIN)), None);
}

#[test]
fn coordinates_of_counts_on_below_the_grid() {
    let buffer = CellBuffer::new(ground(), Size2d::new(7, 5));
    assert_eq!(buffer.coordinates_of(36), Some(Point2d::new(1, 5)));
    let narrow = CellBuffer::new(ground(), Size2d::new(1, 2));
    assert_eq!(narrow.coordinates_of(i32::MAX as usize), Some(Point2d::new(0, i32::MAX)));
    assert_eq!(
        narrow.coordinates_of(i32::MAX as usize + 1),
        Some(Point2d::new(0, i32::MIN))
    );
    assert_eq!(narrow.coordinates_of(u32::MAX as usize), Some(Point2d::new(0, -1)));
    let single = CellBuffer::new(ground(), Size2d::new(1, 1));
    assert_eq!(single.coordinates_of(0), Some(Point2d::new(0, 0)));
    assert_eq!(single.coordinates_of(0x8000_0000), Some(Point2d::new(0, i32::MIN)));
    assert_eq!(CellBuffer::new(ground(), Size2d::new(0, 3)).coordinates_of(0), None);
    assert_eq!(CellBuffer::new(ground(), Size2d::new(3, 0)).coordinates_of(0), None);
}

#[test]
fn resize_to_another_size_discards_the_contents() {
    let mut buffer = CellBuffer::new(ground(), Size2d::new(3, 2));
    buffer.set(Point2d::new(1, 1), Cell::new('x', Color::Red, Color::Blue));
    let fresh = Cell::new('~', Color::Blue, Color::DarkBlue);
    buffer.resize(fresh, Size2d::new(2, 3));
    assert_eq!(buffer.size, Size2d::new(2, 3));
    assert_eq!(buffer.iter().count(), 6);
    for cell in buffer.iter() {
        assert_eq!(*cell, fresh);
    }
}

#[test]
fn resize_to_the_same_size_keeps_the_contents() {
    let mut buffer = CellBuffer::new(ground(), Size2d::new(3, 2));
    let mark = Cell::new('x', Color::Red, Color::Blue);
    buffer.set(Point2d::new(1, 1), mark);
    buffer.resize(Cell::new('~', Color::Blue, Color::DarkBlue), Size2d::new(3, 2));
    assert_eq!(buffer.size, Size2d::new(3, 2));
    assert_eq!(buffer.get(Point2d::new(1, 1)), Some(mark));
    assert_eq!(buffer.get(Point2d::new(0, 0)), Some(ground()));
}

#[test]
fn set_and_get_are_checked() {
    let mut buffer = CellBuffer::new(ground(), Size2d::new(3, 2));
    let mark = Cell::new('x', Color::Red, Color::Blue);
    buffer.set(Point2d::new(2, 1), mark);
    buffer.set(Point2d::new(3, 1), mark);
    buffer.set(Point2d::new(-1, 0), mark);
    buffer.set(Point2d::new(0, 2), mark);
    assert_eq!(buffer.get(Point2d::new(2, 1)), Some(mark));
    assert_eq!(buffer.get(Point2d::new(3, 1)), None);
    assert_eq!(buffer.get(Point2d::new(-1, 0)), None);
    assert_eq!(buffer.iter().filter(|cell| **cell == mark).count(), 1);
}

#[test]
fn write_str_restyles_and_stops_at_the_edge() {
    let mut buffer = CellBuffer::new(ground(), Size2d::new(6, 3));
    buffer.write_str("hello world", Point2d::new(2, 1), Color::Red, Color::Blue);
    assert_eq!(row(&buffer, 0), "......");
    assert_eq!(row(&buffer, 1), "..hell");
    assert_eq!(row(&buffer, 2), "......");
    assert_eq!(buffer.get(Point2d::new(2, 1)), Some(Cell::new('h', Color::Red, Color::Blue)));
    assert_eq!(buffer.get(Point2d::new(1, 1)), Some(ground()));
}

#[test]
fn write_str_from_off_the_grid_writes_nothing() {
    let mut buffer = CellBuffer::new(ground(), Size2d::new(6, 3));
    buffer.write_str("hello", Point2d::new(-2, 1), Color::Red, Color::Blue);
    buffer.write_str("hello", Point2d::new(0, 3), Color::Red, Color::Blue);
    buffer.write_str("hello", Point2d::new(6, 0), Color::Red, Color::Blue);
    buffer.write_str("", Point2d::new(0, 0), Color::Red, Color::Blue);
    for cell in buffer.iter() {
        assert_eq!(*cell, ground());
    }
}

#[test]
fn write_chars_writes_what_the_iterator_still_holds() {
    let mut buffer = CellBuffer::new(ground(), Size2d::new(6, 2));
    let mut text = "abcdef".chars();
    text.next();
    text.next();
    buffer.write_chars(text, Point2d::new(0, 0), Color::White, Color::Black);
    assert_eq!(row(&buffer, 0), "cdef..");
    buffer.write_str("\u{e9}t\u{e9}", Point2d::new(3, 1), Color::White, Color::Black);
    assert_eq!(row(&buffer, 1), "...\u{e9}t\u{e9}");
}

#[test]
fn repeat_cell_stops_at_the_edge() {
    let mut buffer = CellBuffer::new(ground(), Size2d::new(5, 3));
    let bar = Cell::new('-', Color::Grey, Color::DarkGrey);
    buffer.repeat_cell(bar, Point2d::new(1, 0), 3);
    buffer.repeat_cell(bar, Point2d::new(3, 1), 10);
    buffer.repeat_cell(bar, Point2d::new(0, 2), 0);
    buffer.repeat_cell(bar, Point2d::new(5, 2), 3);
    assert_eq!(row(&buffer, 0), ".---.");
    assert_eq!(row(&buffer, 1), "...--");
    assert_eq!(row(&buffer, 2), ".....");
}

#[test]
fn write_cell_buffer_is_cut_at_the_grid() {
    let mut stamp = CellBuffer::new(Cell::new('#', Color::Red, Color::Black), Size2d::new(3, 2));
    stamp.set(Point2d::new(0, 0), Cell::new('a', Color::Red, Color::Black));
    stamp.set(Point2d::new(2, 1), Cell::new('z', Color::Red, Color::Black));

    let mut inside = CellBuffer::new(ground(), Size2d::new(5, 4));
    inside.write_cell_buffer(&stamp, Point2d::new(1, 1));
    assert_eq!(row(&inside, 0), ".....");
    assert_eq!(row(&inside, 1), ".a##.");
    assert_eq!(row(&inside, 2), ".##z.");
    assert_eq!(row(&inside, 3), ".....");

    let mut corner = CellBuffer::new(ground(), Size2d::new(5, 4));
    corner.write_cell_buffer(&stamp, Point2d::new(3, 3));
    assert_eq!(row(&corner, 2), ".....");
    assert_eq!(row(&corner, 3), "...a#");

    let mut before = CellBuffer::new(ground(), Size2d::new(5, 4));
    before.write_cell_buffer(&stamp, Point2d::new(-1, -1));
    assert_eq!(row(&before, 0), "#z...");
    assert_eq!(row(&before, 1), ".....");

    let mut away = CellBuffer::new(ground(), Size2d::new(5, 4));
    away.write_cell_buffer(&stamp, Point2d::new(5, 0));
    away.write_cell_buffer(&stamp, Point2d::new(-3, 0));
    away.write_cell_buffer(&stamp, Point2d::new(0, -2));
    away.write_cell_buffer(&CellBuffer::new(ground(), Size2d::empty()), Point2d::new(0, 0));
    for cell in away.iter() {
        assert_eq!(*cell, ground());
    }
}
