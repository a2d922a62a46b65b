use tokterm::drawing::cell::Cell;
use tokterm::drawing::color::Color;
use tokterm::drawing::point_2d::Point2d;
use tokterm::drawing::size_2d::Size2d;

#[test]
fn points_add_by_their_coordinates() {
    let point = Point2d::new(3, -4);
    assert_eq!(point.x, 3);
    assert_eq!(point.y, -4);
    assert_eq!(point.add(Point2d::new(-5, 6)), Point2d::new(-2, 2));
    assert_eq!(point.add_x(7), Point2d::new(10, -4));
    assert_eq!(point.add_y(7), Point2d::new(3, 3));
    assert!(point.equal_to(Point2d::new(3, -4)));
    assert!(!point.equal_to(Point2d::new(3, 4)));
    assert!(!point.is_empty());
    assert!(Point2d::empty().is_empty());
    assert_eq!(Point2d::empty(), Point2d::new(0, 0));
}

#[test]
fn sizes_add_by_their_dimensions() {
    let size = Size2d::new(3, 4);
    assert_eq!(size.width, 3);
    assert_eq!(size.height, 4);
    assert_eq!(size.add(Size2d::new(5, 6)), Size2d::new(8, 10));
    assert_eq!(size.add_width(7), Size2d::new(10, 4));
    assert_eq!(size.add_height(7), Size2d::new(3, 11));
    assert!(size.equal_to(Size2d::new(3, 4)));
    assert!(!size.equal_to(Size2d::new(4, 3)));
    assert!(!size.is_empty());
    assert!(!Size2d::new(0, 1).is_empty());
    assert!(Size2d::empty().is_empty());
}

#[test]
fn palette_holds_every_color_once() {
    let colors = Color::to_vec();
    assert_eq!(
        colors,
        vec![
            Color::Black,
            Color::Grey,
            Color::Red,
            Color::Green,
            Color::Yellow,
            Color::Blue,
            Color::Magenta,
            Color::Cyan,
            Color::DarkGrey,
            Color::DarkRed,
            Color::DarkGreen,
            Color::DarkYellow,
            Color::DarkBlue,
            Color::DarkMagenta,
            Color::DarkCyan,
            Color::White,
        ]
    );
    for (i, first) in colors.iter().enumerate() {
        for second in colors.iter().skip(i + 1) {
            assert_ne!(first, second);
        }
    }
}

#[test]
fn default_cell_is_grey_on_black() {
    let cell = Cell::default('x');
    assert_eq!(cell.character, 'x');
    assert_eq!(cell.foreground, Color::Grey);
    assert_eq!(cell.background, Color::Black);
    let styled = Cell::new('y', Color::Red, Color::Blue);
    assert_eq!(styled.character, 'y');
    assert_eq!(styled.foreground, Color::Red);
    assert_eq!(styled.background, Color::Blue);
}
