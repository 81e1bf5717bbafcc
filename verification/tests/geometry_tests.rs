use dungeon::{Position, Rectangle};

fn rect(x0: isize, y0: isize, x1: isize, y1: isize) -> Rectangle {
    Rectangle::new(Position { x: x0, y: y0 }, Position { x: x1, y: y1 }).unwrap()
}

#[test]
fn valid_rectangle_has_positive_extents() {
    let r = rect(2, 3, 5, 9);
    assert!(r.width() > 0);
    assert!(r.height() > 0);
    assert_eq!(r.width(), 3);
    assert_eq!(r.height(), 6);
}

#[test]
fn reversed_corners_make_no_rectangle() {
    assert!(Rectangle::new(Position { x: 5, y: 5 }, Position { x: 2, y: 2 }).is_none());
    assert!(Rectangle::new(Position { x: 0, y: 0 }, Position { x: 4, y: -1 }).is_none());
    assert!(Rectangle::new(Position { x: 0, y: 0 }, Position { x: 0, y: 4 }).is_none());
}

#[test]
fn shrink_fails_on_thin_rectangles() {
    assert!(rect(0, 0, 2, 5).shrink(1).is_none());
    assert!(rect(0, 0, 5, 2).shrink(1).is_none());
    assert!(rect(0, 0, 2, 2).shrink(1).is_none());
    assert!(rect(0, 0, 1, 1).shrink(1).is_none());
}

#[test]
fn shrink_yields_strictly_inner_rectangle() {
    let outer = rect(0, 0, 5, 7);
    let inner = outer.shrink(1).unwrap();
    assert_eq!(inner, rect(1, 1, 4, 6));
    assert!(inner.width() > 0 && inner.height() > 0);
    // Strictly inside the original on every side.
    assert!(outer.width() > inner.width() && outer.height() > inner.height());
}

#[test]
fn shrink_by_zero_keeps_the_rectangle() {
    let r = rect(-3, -2, 4, 6);
    assert_eq!(r.shrink(0).unwrap(), r);
}

#[test]
fn move_by_translates() {
    let p = Position { x: 3, y: -4 };
    let q = p.move_by((2, 7));
    assert_eq!(q, Position { x: 5, y: 3 });
}
