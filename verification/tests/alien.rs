use asteroids::alien::Alien;
use asteroids::arena::Arena;
use asteroids::projectile::Projectile;
use asteroids::vector::{Vector2, UNIT};

fn arena() -> Arena {
    Arena::new(1_000, 1_000)
}

#[test]
fn the_alien_enters_from_either_side() {
    let left = Alien::arriving(&arena(), true, 9);
    assert_eq!(left.position, Vector2::new(-60 * UNIT, 500 * UNIT));
    assert_eq!(left.forward, Vector2::new(1_000, 0));
    assert_eq!(left.health, 3);
    assert_eq!(left.creation_time, 9);
    assert_eq!(left.aim, None);
    assert!(!left.expired);
    let right = Alien::arriving(&arena(), false, 9);
    assert_eq!(right.position, Vector2::new(1_060 * UNIT, 500 * UNIT));
    assert_eq!(right.forward, Vector2::new(-1_000, 0));
}

#[test]
fn new_aliens_come_from_both_sides() {
    let mut rng = rand::thread_rng();
    let mut from_left = false;
    let mut from_right = false;
    for _ in 0..200 {
        let alien = Alien::new(&mut rng, &arena(), 5);
        assert_eq!(alien.health, 3);
        assert_eq!(alien.creation_time, 5);
        assert_eq!(alien.position.y, 500 * UNIT);
        if alien.position.x == -60 * UNIT {
            assert_eq!(alien.forward, Vector2::new(1_000, 0));
            from_left = true;
        } else {
            assert_eq!(alien.position.x, 1_060 * UNIT);
            assert_eq!(alien.forward, Vector2::new(-1_000, 0));
            from_right = true;
        }
    }
    assert!(from_left && from_right);
}

#[test]
fn a_roll_of_zero_turns_up_and_a_roll_of_one_turns_down() {
    assert_eq!(Alien::nudge(0, 0), 1_000);
    assert_eq!(Alien::nudge(0, 1), -1_000);
    assert_eq!(Alien::nudge(0, 2), 0);
    assert_eq!(Alien::nudge(1_000, 0), 1_000);
    assert_eq!(Alien::nudge(-1_000, 1), -1_000);
    assert_eq!(Alien::nudge(1_000, 1), 0);
    assert_eq!(Alien::nudge(-1_000, 0), 0);
    assert_eq!(Alien::nudge(500, 0), 1_000);
    assert_eq!(Alien::nudge(-500, 1), -1_000);
    assert_eq!(Alien::nudge(500, 499), 500);
}

#[test]
fn steering_changes_only_the_heading() {
    let mut alien = Alien::arriving(&arena(), true, 0);
    alien.steer(1, 0);
    assert_eq!(alien.forward, Vector2::new(0, 1_000));
    assert_eq!(alien.position, Vector2::new(-60 * UNIT, 500 * UNIT));
    alien.steer(7, 7);
    assert_eq!(alien.forward, Vector2::new(0, 1_000));
}

#[test]
fn the_alien_moves_at_its_speed() {
    let mut alien = Alien::arriving(&arena(), true, 0);
    alien.advance(&arena(), 1_000);
    assert_eq!(alien.position, Vector2::new(140 * UNIT, 500 * UNIT));
    alien.forward = Vector2::new(-1_000, 1_000);
    alien.advance(&arena(), 16);
    assert_eq!(alien.position, Vector2::new(136_800_000, 503_200_000));
}

#[test]
fn the_alien_wraps_with_its_own_margins() {
    let a = arena();
    let mut alien = Alien::arriving(&a, true, 0);
    alien.position = Vector2::new(-55 * UNIT - 1, 500 * UNIT);
    alien.clamp_position(&a);
    assert_eq!(alien.position, Vector2::new(1_055 * UNIT, 500 * UNIT));
    alien.position = Vector2::new(1_055 * UNIT + 1, 500 * UNIT);
    alien.clamp_position(&a);
    assert_eq!(alien.position, Vector2::new(-55 * UNIT, 500 * UNIT));
    alien.position = Vector2::new(500 * UNIT, -15 * UNIT - 1);
    alien.clamp_position(&a);
    assert_eq!(alien.position, Vector2::new(500 * UNIT, 1_030 * UNIT));
    alien.position = Vector2::new(500 * UNIT, 1_030 * UNIT + 1);
    alien.clamp_position(&a);
    assert_eq!(alien.position, Vector2::new(500 * UNIT, -15 * UNIT));
    alien.position = Vector2::new(-55 * UNIT, -15 * UNIT);
    alien.clamp_position(&a);
    assert_eq!(alien.position, Vector2::new(-55 * UNIT, -15 * UNIT));
}

#[test]
fn wandering_stays_within_the_margins() {
    let mut rng = rand::thread_rng();
    let a = arena();
    let mut alien = Alien::arriving(&a, false, 0);
    for _ in 0..2_000 {
        alien.move_forward(&mut rng, &a, 50);
        assert!(-55 * UNIT <= alien.position.x && alien.position.x <= 1_055 * UNIT);
        assert!(-15 * UNIT <= alien.position.y && alien.position.y <= 1_030 * UNIT);
        assert!(-1_000 <= alien.forward.x && alien.forward.x <= 1_000);
        assert!(-1_000 <= alien.forward.y && alien.forward.y <= 1_000);
        assert_eq!(alien.health, 3);
        assert!(!alien.expired);
    }
}

#[test]
fn the_aim_points_at_the_ship() {
    let mut alien = Alien::arriving(&arena(), true, 0);
    alien.position = Vector2::new(100 * UNIT, 100 * UNIT);
    alien.update_aim(&Vector2::new(400 * UNIT, 500 * UNIT));
    assert_eq!(alien.aim, Some(Vector2::new(600, 800)));
    alien.update_aim(&Vector2::new(100 * UNIT, 50 * UNIT));
    assert_eq!(alien.aim, Some(Vector2::new(0, -1_000)));
    alien.update_aim(&Vector2::new(100 * UNIT, 100 * UNIT));
    assert_eq!(alien.aim, None);
}

#[test]
fn the_alien_fires_along_its_aim_when_the_roll_comes_out() {
    let mut alien = Alien::arriving(&arena(), true, 0);
    assert_eq!(alien.shot(true), None);
    alien.update_aim(&Vector2::new(-60 * UNIT, 0));
    assert_eq!(alien.shot(false), None);
    let fired: Projectile = alien.shot(true).unwrap();
    assert_eq!(fired.position, alien.position);
    assert_eq!(fired.forward, Vector2::new(0, -1_000));
    assert_eq!(fired.speed, 1_000);
    assert!(!fired.expired);
}

#[test]
fn the_alien_shoots_now_and_then() {
    let mut rng = rand::thread_rng();
    let mut alien = Alien::arriving(&arena(), true, 0);
    for _ in 0..200 {
        assert_eq!(alien.shoot(&mut rng), None);
    }
    alien.update_aim(&Vector2::new(500 * UNIT, 500 * UNIT));
    let mut shots = 0;
    let mut silent = 0;
    for _ in 0..5_000 {
        match alien.shoot(&mut rng) {
            Some(p) => {
                assert_eq!(p.position, alien.position);
                assert_eq!(p.forward, Vector2::new(1_000, 0));
                shots += 1;
            }
            None => silent += 1,
        }
    }
    assert!(shots > 0);
    assert!(silent > shots);
}

#[test]
fn an_alien_survives_two_hits_and_expires_at_the_end_of_its_time() {
    let created = 1_000_000;
    let mut alien = Alien::arriving(&arena(), true, created);
    assert_eq!(alien.health, 3);
    alien.check_expiration(created + 5_000);
    assert!(!alien.take_hit());
    alien.check_expiration(created + 10_000);
    assert!(!alien.take_hit());
    assert_eq!(alien.health, 1);
    assert!(!alien.expired);
    alien.check_expiration(created + 27_999);
    assert!(!alien.expired);
    alien.check_expiration(created + 28_000);
    assert!(alien.expired);
    assert_eq!(alien.health, 1);
    alien.check_expiration(created);
    assert!(alien.expired);
}

#[test]
fn the_third_hit_destroys_the_alien() {
    let mut alien = Alien::arriving(&arena(), true, 0);
    assert!(!alien.take_hit());
    assert!(!alien.take_hit());
    assert!(alien.take_hit());
    assert_eq!(alien.health, 0);
    assert!(alien.expired);
    assert!(!alien.take_hit());
    assert_eq!(alien.health, 0);
    assert!(alien.expired);
}
