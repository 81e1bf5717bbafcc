use dungeon::{Direction, Player, Position, Rectangle, Room};
use rand::SeedableRng;

fn room(x0: isize, y0: isize, x1: isize, y1: isize) -> Room {
    Room::new(Rectangle::new(Position { x: x0, y: y0 }, Position { x: x1, y: y1 }).unwrap())
}

#[test]
fn contains_enumerates_5x5_room() {
    // A 5-by-5 room at the origin: walls on the border, a 3-by-3 interior.
    let r = room(0, 0, 5, 5);
    for x in 0..5isize {
        for y in 0..5isize {
            let expected = (1..=3).contains(&x) && (1..=3).contains(&y);
            assert_eq!(r.contains(Position { x, y }), expected, "at ({}, {})", x, y);
        }
    }
}

#[test]
fn contains_excludes_far_wall_row_and_column() {
    let r = room(10, 10, 20, 20);
    assert!(r.contains(Position { x: 18, y: 18 }));
    assert!(!r.contains(Position { x: 19, y: 18 }));
    assert!(!r.contains(Position { x: 18, y: 19 }));
    assert!(!r.contains(Position { x: 10, y: 15 }));
    assert!(!r.contains(Position { x: 15, y: 10 }));
}

#[test]
fn avatar_stops_one_cell_before_the_wall() {
    // A single 5-by-5 room at the origin; the avatar starts at its center.
    let rooms = [room(0, 0, 5, 5)];
    let mut player = Player::new_unchecked(Position { x: 2, y: 2 });

    player.move_by(Direction::Up, &rooms);
    assert_eq!((player.x(), player.y()), (2, 1));
    // The wall is at row 0; every further move up is rejected.
    player.move_by(Direction::Up, &rooms);
    assert_eq!((player.x(), player.y()), (2, 1));
    player.move_by(Direction::Up, &rooms);
    assert_eq!((player.x(), player.y()), (2, 1));

    player.move_by(Direction::Left, &rooms);
    assert_eq!((player.x(), player.y()), (1, 1));
    player.move_by(Direction::Left, &rooms);
    assert_eq!((player.x(), player.y()), (1, 1));

    player.move_by(Direction::Down, &rooms);
    player.move_by(Direction::Down, &rooms);
    assert_eq!((player.x(), player.y()), (1, 3));
    player.move_by(Direction::Down, &rooms);
    assert_eq!((player.x(), player.y()), (1, 3));
}

#[test]
fn move_into_overlapping_room_is_accepted() {
    // Two overlapping rooms: a cell on one room's wall can still be
    // walkable when it lies in the other room's interior.
    let rooms = [room(0, 0, 5, 5), room(3, 0, 9, 5)];
    let mut player = Player::new_unchecked(Position { x: 3, y: 2 });
    player.move_by(Direction::Right, &rooms);
    assert_eq!((player.x(), player.y()), (4, 2));
    player.move_by(Direction::Right, &rooms);
    assert_eq!((player.x(), player.y()), (5, 2));
}

#[test]
fn setters_and_getters_mirror_the_position() {
    let mut player = Player::new_unchecked(Position { x: 7, y: -2 });
    assert_eq!(player.x(), 7);
    assert_eq!(player.y(), -2);
    player.set_location_unchecked(Position { x: 1, y: 2 });
    assert_eq!((player.x(), player.y()), (1, 2));
}

#[test]
fn random_location_is_strictly_inside_the_room() {
    let r = room(0, 0, 10, 8);
    for seed in 0..20u64 {
        let mut rng = rand::rngs::StdRng::seed_from_u64(seed);
        let loc = r.random_location(&mut rng);
        assert!(r.contains(loc), "seed {}: ({}, {})", seed, loc.x, loc.y);
    }
}

#[test]
fn random_location_is_deterministic_for_a_seed() {
    let r = room(-4, -4, 11, 9);
    let mut rng_a = rand::rngs::StdRng::seed_from_u64(99);
    let mut rng_b = rand::rngs::StdRng::seed_from_u64(99);
    assert_eq!(r.random_location(&mut rng_a), r.random_location(&mut rng_b));
}

#[test]
fn rectangle_random_location_spans_the_half_open_range() {
    let rect = Rectangle::new(Position { x: 0, y: 0 }, Position { x: 2, y: 2 }).unwrap();
    let mut seen = [[false; 2]; 2];
    for seed in 0..64u64 {
        let mut rng = rand::rngs::StdRng::seed_from_u64(seed);
        let loc = rect.random_location(&mut rng);
        assert!((0..2).contains(&loc.x) && (0..2).contains(&loc.y));
        seen[loc.x as usize][loc.y as usize] = true;
    }
    // Every cell of the 2-by-2 range appears; the bound itself never does.
    assert!(seen.iter().all(|row| row.iter().all(|&b| b)));
}
