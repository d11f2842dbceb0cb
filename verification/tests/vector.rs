use asteroids::arena::{Arena, Margins};
use asteroids::vector::{
    clamp_coordinate, integer_root, step, wrap_coordinate, Vector2, COORD_LIMIT, UNIT,
};

#[test]
fn step_is_direction_times_speed_times_time() {
    assert_eq!(step(1_000, 100, 16), 1_600_000);
    assert_eq!(step(-500, 300, 10), -1_500_000);
    assert_eq!(step(0, 1_000, 4_000), 0);
    assert_eq!(step(1_000, 1_000, u32::MAX), 4_294_967_295_000_000);
}

#[test]
fn advance_moves_both_coordinates() {
    let start = Vector2::new(0, 0);
    let moved = start.advance(Vector2::new(1_000, -1_000), 1_000, 1_000);
    assert_eq!(moved, Vector2::new(1_000_000_000, -1_000_000_000));
    let still = start.advance(Vector2::new(1_000, 1_000), 1_000, 0);
    assert_eq!(still, start);
}

#[test]
fn coordinates_stop_at_the_limit() {
    assert_eq!(clamp_coordinate(COORD_LIMIT + 1), COORD_LIMIT);
    assert_eq!(clamp_coordinate(-COORD_LIMIT - 1), -COORD_LIMIT);
    assert_eq!(clamp_coordinate(17), 17);
    let edge = Vector2::new(COORD_LIMIT, -COORD_LIMIT);
    assert_eq!(edge.shift(5, -5), edge);
    assert_eq!(edge.shift(-5, 5), Vector2::new(COORD_LIMIT - 5, -COORD_LIMIT + 5));
}

#[test]
fn wrap_coordinate_carries_to_the_other_side() {
    assert_eq!(wrap_coordinate(-1, 100, 0, 0), 100);
    assert_eq!(wrap_coordinate(101, 100, 0, 0), 0);
    assert_eq!(wrap_coordinate(0, 100, 0, 0), 0);
    assert_eq!(wrap_coordinate(100, 100, 0, 0), 100);
    assert_eq!(wrap_coordinate(-11, 100, 10, 20), 120);
    assert_eq!(wrap_coordinate(-10, 100, 10, 20), -10);
    assert_eq!(wrap_coordinate(121, 100, 10, 20), -10);
    assert_eq!(wrap_coordinate(120, 100, 10, 20), 120);
}

#[test]
fn integer_root_rounds_down() {
    assert_eq!(integer_root(0), 0);
    assert_eq!(integer_root(1), 1);
    assert_eq!(integer_root(3), 1);
    assert_eq!(integer_root(24), 4);
    assert_eq!(integer_root(25), 5);
    assert_eq!(integer_root(26), 5);
    assert_eq!(
        integer_root(1_000_000_000_000_000_000_000_000_000_000_000_000),
        1_000_000_000_000_000_000
    );
}

#[test]
fn direction_points_at_the_target() {
    let origin = Vector2::new(0, 0);
    assert_eq!(
        origin.direction_to(&Vector2::new(3 * UNIT, 4 * UNIT)),
        Some(Vector2::new(600, 800))
    );
    assert_eq!(
        origin.direction_to(&Vector2::new(-3 * UNIT, -4 * UNIT)),
        Some(Vector2::new(-600, -800))
    );
    assert_eq!(origin.direction_to(&Vector2::new(0, -5)), Some(Vector2::new(0, -1_000)));
    assert_eq!(origin.direction_to(&Vector2::new(7, 0)), Some(Vector2::new(1_000, 0)));
}

#[test]
fn there_is_no_direction_to_the_same_point() {
    let p = Vector2::new(12, -9);
    assert_eq!(p.direction_to(&p), None);
}

#[test]
fn direction_across_the_whole_world_stays_a_direction() {
    let a = Vector2::new(-COORD_LIMIT, -COORD_LIMIT);
    let b = Vector2::new(COORD_LIMIT, COORD_LIMIT);
    let d = a.direction_to(&b).unwrap();
    assert_eq!(d, Vector2::new(707, 707));
}

#[test]
fn arena_is_measured_in_sub_units() {
    let arena = Arena::new(1_000, 500);
    assert_eq!(arena.width, 1_000_000_000);
    assert_eq!(arena.height, 500_000_000);
    assert_eq!(arena.center(), Vector2::new(500_000_000, 250_000_000));
    let standard = Arena::standard();
    assert_eq!(standard.width, 1_000_000_000);
    assert_eq!(standard.height, 1_000_000_000);
}

#[test]
fn arena_contains_its_edges() {
    let arena = Arena::new(10, 10);
    assert!(arena.is_inside(&Vector2::new(0, 0)));
    assert!(arena.is_inside(&Vector2::new(10 * UNIT, 10 * UNIT)));
    assert!(!arena.is_inside(&Vector2::new(-1, 5)));
    assert!(!arena.is_inside(&Vector2::new(5, 10 * UNIT + 1)));
}

#[test]
fn crossing_an_edge_keeps_the_other_coordinate() {
    let arena = Arena::new(100, 100);
    let margins = Margins::uniform(5 * UNIT);
    let right = arena.wrap(Vector2::new(105 * UNIT + 1, 40 * UNIT), &margins);
    assert_eq!(right, Vector2::new(-5 * UNIT, 40 * UNIT));
    let left = arena.wrap(Vector2::new(-5 * UNIT - 1, 40 * UNIT), &margins);
    assert_eq!(left, Vector2::new(105 * UNIT, 40 * UNIT));
    let bottom = arena.wrap(Vector2::new(40 * UNIT, 105 * UNIT + 1), &margins);
    assert_eq!(bottom, Vector2::new(40 * UNIT, -5 * UNIT));
    let top = arena.wrap(Vector2::new(40 * UNIT, -5 * UNIT - 1), &margins);
    assert_eq!(top, Vector2::new(40 * UNIT, 105 * UNIT));
    let inside = arena.wrap(Vector2::new(105 * UNIT, -5 * UNIT), &margins);
    assert_eq!(inside, Vector2::new(105 * UNIT, -5 * UNIT));
}

#[test]
fn repeated_wrapping_never_leaves_the_margins() {
    let arena = Arena::new(100, 100);
    let margins = Margins::uniform(5 * UNIT);
    let mut p = Vector2::new(50 * UNIT, 50 * UNIT);
    for _ in 0..1_000 {
        p = arena.wrap(p.advance(Vector2::new(1_000, -730), 300, 97), &margins);
        assert!(-5 * UNIT <= p.x && p.x <= 105 * UNIT);
        assert!(-5 * UNIT <= p.y && p.y <= 105 * UNIT);
    }
}
