use dungeon::{Canvas, Position, Rectangle, Room};

fn rect(x0: isize, y0: isize, x1: isize, y1: isize) -> Rectangle {
    Rectangle::new(Position { x: x0, y: y0 }, Position { x: x1, y: y1 }).unwrap()
}

fn canvas_glyphs(c: &Canvas) -> Vec<Vec<char>> {
    let mut grid = Vec::new();
    let mut row: isize = 0;
    while row < c.rows() {
        let mut line = Vec::new();
        let mut col: isize = 0;
        while col < c.columns() {
            line.push(c.get(row, col));
            col += 1;
        }
        grid.push(line);
        row += 1;
    }
    grid
}

#[test]
fn canvas_starts_blank_and_set_overwrites() {
    let mut c = Canvas::new(4, 3);
    assert_eq!(c.columns(), 4);
    assert_eq!(c.rows(), 3);
    for row in 0..3isize {
        for col in 0..4isize {
            assert_eq!(c.get(row, col), ' ');
        }
    }
    c.set(2, 3, '#');
    c.set(2, 3, '@');
    assert_eq!(c.get(2, 3), '@');
    assert_eq!(c.get(0, 0), ' ');
}

#[test]
fn room_outside_the_screen_draws_nothing() {
    let screen = rect(0, 0, 10, 10);
    let mut c = Canvas::new(10, 10);
    let room = Room::new(rect(50, 50, 60, 60));
    room.draw(screen, &mut c);
    let blank = canvas_glyphs(&Canvas::new(10, 10));
    assert_eq!(canvas_glyphs(&c), blank);

    // Also a room off the near side of the viewport.
    let room = Room::new(rect(-20, -20, -5, -5));
    room.draw(screen, &mut c);
    assert_eq!(canvas_glyphs(&c), blank);
}

#[test]
fn room_fully_on_screen_draws_walls_and_floor() {
    let screen = rect(0, 0, 10, 10);
    let mut c = Canvas::new(10, 10);
    let room = Room::new(rect(2, 3, 7, 8));
    room.draw(screen, &mut c);
    for row in 0..10isize {
        for col in 0..10isize {
            let on_wall = ((row == 3 || row == 7) && (2..7).contains(&col)) || ((col == 2 || col
                == 6) && (3..8).contains(&row));
            let on_floor = (3..6).contains(&col) && (4..7).contains(&row);
            let expected = if on_wall {
                '#'
            } else if on_floor {
                '.'
            } else {
                ' '
            };
            assert_eq!(c.get(row, col), expected, "at row {} col {}", row, col);
        }
    }
}

#[test]
fn room_straddling_the_screen_edge_is_clipped() {
    let screen = rect(0, 0, 10, 10);
    let mut c = Canvas::new(10, 10);
    let room = Room::new(rect(-3, -3, 4, 4));
    room.draw(screen, &mut c);
    for row in 0..10isize {
        for col in 0..10isize {
            let on_wall = (row == 3 && (0..4).contains(&col)) || (col == 3 && (0..4).contains(
                &row,
            ));
            let on_floor = (0..3).contains(&col) && (0..3).contains(&row);
            let expected = if on_wall {
                '#'
            } else if on_floor {
                '.'
            } else {
                ' '
            };
            assert_eq!(c.get(row, col), expected, "at row {} col {}", row, col);
        }
    }
}

#[test]
fn later_rooms_overwrite_earlier_glyphs() {
    let screen = rect(0, 0, 12, 12);
    let mut c = Canvas::new(12, 12);
    let first = Room::new(rect(0, 0, 8, 8));
    let second = Room::new(rect(4, 4, 11, 11));
    first.draw(screen, &mut c);
    second.draw(screen, &mut c);
    // The second room's top-left wall corner lands inside the first
    // room's floor.
    assert_eq!(c.get(4, 4), '#');
    // The second room's floor covers part of the first room's wall.
    assert_eq!(c.get(7, 5), '.');
    // Cells only the first room covers keep its glyphs.
    assert_eq!(c.get(0, 0), '#');
    assert_eq!(c.get(2, 2), '.');
}
