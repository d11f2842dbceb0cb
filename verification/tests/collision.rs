use asteroids::alien::Alien;
use asteroids::arena::Arena;
use asteroids::asteroid::{Asteroid, AsteroidSize};
use asteroids::collision::{
    alien_projectile_ship_hit, handle_alien_projectile_collisions,
    handle_alien_projectile_ship_hit, handle_player_projectile_collisions,
    handle_projectile_alien_hit, handle_projectile_asteroid_hit, handle_ship_alien_collisions,
    handle_ship_asteroid_collisions, handle_ship_collision, overlap, projectile_alien_hit,
    projectile_asteroid_hit, resolve_alien_projectile, resolve_player_projectile,
    ship_alien_collision, ship_asteroid_collision, strike_asteroids,
};
use asteroids::particle::Particle;
use asteroids::projectile::Projectile;
use asteroids::score::Score;
use asteroids::ship::Ship;
use asteroids::sounds::{Sound, SoundEvent, Sounds};
use asteroids::vector::{Vector2, UNIT};

const NOW: u64 = 12_345;

fn arena() -> Arena {
    Arena::new(1_000, 1_000)
}

fn rock(size: AsteroidSize, x: i64, y: i64) -> Asteroid {
    Asteroid::with_size(Vector2::new(x, y), Vector2::new(0, 0), 0, size)
}

fn shot(x: i64, y: i64) -> Projectile {
    Projectile::new(&Vector2::new(x, y), &Vector2::new(1_000, 0))
}

fn alien_at(x: i64, y: i64) -> Alien {
    let mut alien = Alien::arriving(&arena(), true, 0);
    alien.position = Vector2::new(x, y);
    alien
}

fn check_burst(burst: &[Particle], least: usize, most: usize, position: Vector2) {
    assert!(least <= burst.len() && burst.len() <= most, "{} particles", burst.len());
    for particle in burst {
        assert_eq!(particle.position, position);
        assert_eq!(particle.creation_time, NOW);
        assert!(!particle.expired);
    }
}

#[test]
fn a_projectile_on_the_edge_of_an_asteroid_misses() {
    let big = rock(AsteroidSize::BIG, 100 * UNIT, 100 * UNIT);
    assert!(projectile_asteroid_hit(&shot(100 * UNIT, 100 * UNIT), &big));
    assert!(projectile_asteroid_hit(&shot(180 * UNIT - 1, 100 * UNIT), &big));
    assert!(!projectile_asteroid_hit(&shot(180 * UNIT, 100 * UNIT), &big));
    assert!(projectile_asteroid_hit(&shot(20 * UNIT + 1, 100 * UNIT), &big));
    assert!(!projectile_asteroid_hit(&shot(20 * UNIT, 100 * UNIT), &big));
    assert!(projectile_asteroid_hit(&shot(100 * UNIT, 180 * UNIT - 1), &big));
    assert!(!projectile_asteroid_hit(&shot(100 * UNIT, 180 * UNIT), &big));
    assert!(!projectile_asteroid_hit(&shot(100 * UNIT, 20 * UNIT), &big));
    assert!(projectile_asteroid_hit(&shot(179 * UNIT, 179 * UNIT), &big));
    let small = rock(AsteroidSize::SMALL, 100 * UNIT, 100 * UNIT);
    assert!(!projectile_asteroid_hit(&shot(131 * UNIT, 100 * UNIT), &small));
    assert!(projectile_asteroid_hit(&shot(129 * UNIT, 100 * UNIT), &small));
}

#[test]
fn the_aliens_box_reaches_farther_up_than_down() {
    let alien = alien_at(500 * UNIT, 500 * UNIT);
    assert!(projectile_alien_hit(&shot(500 * UNIT, 500 * UNIT), &alien));
    assert!(projectile_alien_hit(&shot(500 * UNIT, 470 * UNIT + 1), &alien));
    assert!(!projectile_alien_hit(&shot(500 * UNIT, 470 * UNIT), &alien));
    assert!(projectile_alien_hit(&shot(500 * UNIT, 515 * UNIT - 1), &alien));
    assert!(!projectile_alien_hit(&shot(500 * UNIT, 515 * UNIT), &alien));
    assert!(projectile_alien_hit(&shot(445 * UNIT + 1, 500 * UNIT), &alien));
    assert!(!projectile_alien_hit(&shot(445 * UNIT, 500 * UNIT), &alien));
    assert!(projectile_alien_hit(&shot(555 * UNIT - 1, 500 * UNIT), &alien));
    assert!(!projectile_alien_hit(&shot(555 * UNIT, 500 * UNIT), &alien));
}

#[test]
fn a_projectile_hits_the_ship_inside_its_box() {
    let ship = Ship::new(&arena(), 0);
    assert!(alien_projectile_ship_hit(&shot(500 * UNIT, 500 * UNIT), &ship));
    assert!(alien_projectile_ship_hit(&shot(480 * UNIT + 1, 475 * UNIT + 1), &ship));
    assert!(!alien_projectile_ship_hit(&shot(480 * UNIT, 500 * UNIT), &ship));
    assert!(!alien_projectile_ship_hit(&shot(520 * UNIT, 500 * UNIT), &ship));
    assert!(!alien_projectile_ship_hit(&shot(500 * UNIT, 475 * UNIT), &ship));
    assert!(!alien_projectile_ship_hit(&shot(500 * UNIT, 525 * UNIT), &ship));
}

#[test]
fn ranges_overlap_by_an_end_inside_or_by_reaching_over() {
    assert!(overlap(0, 10, 5, 20));
    assert!(overlap(10, 30, 5, 20));
    assert!(overlap(0, 30, 5, 20));
    assert!(overlap(5, 20, 5, 20));
    assert!(overlap(6, 7, 5, 20));
    assert!(!overlap(0, 5, 5, 20));
    assert!(!overlap(20, 30, 5, 20));
    assert!(!overlap(0, 4, 5, 20));
    assert!(!overlap(21, 30, 5, 20));
}

#[test]
fn a_near_miss_of_an_asteroid_is_a_miss() {
    let ship = Ship::new(&arena(), 0);
    assert!(ship_asteroid_collision(&ship, &rock(AsteroidSize::SMALL, 500 * UNIT, 500 * UNIT)));
    assert!(ship_asteroid_collision(&ship, &rock(AsteroidSize::BIG, 500 * UNIT, 500 * UNIT)));
    assert!(!ship_asteroid_collision(&ship, &rock(AsteroidSize::SMALL, 545 * UNIT, 500 * UNIT)));
    assert!(ship_asteroid_collision(&ship, &rock(AsteroidSize::SMALL, 545 * UNIT - 1, 500 * UNIT)));
    assert!(!ship_asteroid_collision(&ship, &rock(AsteroidSize::SMALL, 455 * UNIT, 500 * UNIT)));
    assert!(ship_asteroid_collision(&ship, &rock(AsteroidSize::SMALL, 455 * UNIT + 1, 500 * UNIT)));
    assert!(!ship_asteroid_collision(&ship, &rock(AsteroidSize::SMALL, 500 * UNIT, 550 * UNIT)));
    assert!(ship_asteroid_collision(&ship, &rock(AsteroidSize::SMALL, 500 * UNIT, 550 * UNIT - 1)));
    assert!(!ship_asteroid_collision(&ship, &rock(AsteroidSize::BIG, 595 * UNIT, 500 * UNIT)));
    assert!(ship_asteroid_collision(&ship, &rock(AsteroidSize::BIG, 595 * UNIT - 1, 500 * UNIT)));
    assert!(!ship_asteroid_collision(&ship, &rock(AsteroidSize::BIG, 0, 0)));
}

#[test]
fn the_ship_meets_the_alien_when_their_boxes_overlap() {
    let ship = Ship::new(&arena(), 0);
    assert!(ship_alien_collision(&ship, &alien_at(500 * UNIT, 500 * UNIT)));
    assert!(!ship_alien_collision(&ship, &alien_at(570 * UNIT, 500 * UNIT)));
    assert!(ship_alien_collision(&ship, &alien_at(570 * UNIT - 1, 500 * UNIT)));
    assert!(!ship_alien_collision(&ship, &alien_at(430 * UNIT, 500 * UNIT)));
    assert!(!ship_alien_collision(&ship, &alien_at(500 * UNIT, 550 * UNIT)));
    assert!(ship_alien_collision(&ship, &alien_at(500 * UNIT, 550 * UNIT - 1)));
    assert!(!ship_alien_collision(&ship, &alien_at(500 * UNIT, 465 * UNIT)));
    assert!(ship_alien_collision(&ship, &alien_at(500 * UNIT, 465 * UNIT + 1)));
}

#[test]
fn an_asteroid_on_the_ship_takes_one_health_and_makes_it_immune() {
    let mut rng = rand::thread_rng();
    for _ in 0..50 {
        let mut ship = Ship::new(&arena(), 0);
        let mut sounds = Sounds::new();
        assert_eq!(ship.health, 5);
        assert!(!ship.immune);
        let rocks = vec![rock(AsteroidSize::BIG, 510 * UNIT, 490 * UNIT)];
        let burst =
            handle_ship_asteroid_collisions(&mut rng, &mut ship, &rocks, &mut sounds, NOW).unwrap();
        assert_eq!(ship.health, 4);
        assert!(ship.immune);
        assert_eq!(ship.immune_instant, NOW);
        check_burst(&burst, 5, 8, Vector2::new(500 * UNIT, 500 * UNIT));
        assert_eq!(sounds.events, vec![SoundEvent::PlayDetached(Sound::ShipCollision)]);
        assert!(!rocks[0].destroyed);
    }
}

#[test]
fn several_asteroids_on_the_ship_damage_it_once() {
    let mut rng = rand::thread_rng();
    let mut ship = Ship::new(&arena(), 0);
    let mut sounds = Sounds::new();
    let rocks = vec![
        rock(AsteroidSize::BIG, 0, 0),
        rock(AsteroidSize::BIG, 510 * UNIT, 490 * UNIT),
        rock(AsteroidSize::SMALL, 500 * UNIT, 500 * UNIT),
        rock(AsteroidSize::MEDIUM, 495 * UNIT, 505 * UNIT),
    ];
    let burst =
        handle_ship_asteroid_collisions(&mut rng, &mut ship, &rocks, &mut sounds, NOW).unwrap();
    assert_eq!(ship.health, 4);
    assert!(ship.immune);
    check_burst(&burst, 5, 8, ship.position);
    assert_eq!(sounds.events.len(), 1);
    let again = handle_ship_asteroid_collisions(&mut rng, &mut ship, &rocks, &mut sounds, NOW + 1);
    assert!(again.is_none());
    assert_eq!(ship.health, 4);
    assert_eq!(ship.immune_instant, NOW);
    assert_eq!(sounds.events.len(), 1);
}

#[test]
fn a_ship_that_meets_no_asteroid_is_unharmed() {
    let mut rng = rand::thread_rng();
    let mut ship = Ship::new(&arena(), 0);
    let mut sounds = Sounds::new();
    let rocks = vec![rock(AsteroidSize::BIG, 0, 0), rock(AsteroidSize::SMALL, 545 * UNIT, 500 * UNIT)];
    let burst =
        handle_ship_asteroid_collisions(&mut rng, &mut ship, &rocks, &mut sounds, NOW).unwrap();
    assert!(burst.is_empty());
    assert_eq!(ship, Ship::new(&arena(), 0));
    assert!(sounds.events.is_empty());
    let empty: Vec<Asteroid> = Vec::new();
    let burst =
        handle_ship_asteroid_collisions(&mut rng, &mut ship, &empty, &mut sounds, NOW).unwrap();
    assert!(burst.is_empty());
}

#[test]
fn one_projectile_destroys_both_of_two_asteroids_that_overlap() {
    let mut rng = rand::thread_rng();
    let mut child_counts = [false; 3];
    for _ in 0..100 {
        let mut alien: Option<Alien> = None;
        let mut shots = vec![shot(310 * UNIT, 300 * UNIT)];
        let mut rocks = vec![
            rock(AsteroidSize::BIG, 300 * UNIT, 300 * UNIT),
            rock(AsteroidSize::SMALL, 900 * UNIT, 900 * UNIT),
            rock(AsteroidSize::MEDIUM, 320 * UNIT, 300 * UNIT),
        ];
        let mut score = Score::new();
        let mut sounds = Sounds::new();
        let (pieces, dust) = handle_player_projectile_collisions(
            &mut rng, &mut alien, &mut shots, &mut rocks, &mut score, &mut sounds, NOW,
        );
        assert!(rocks[0].destroyed);
        assert!(!rocks[1].destroyed);
        assert!(rocks[2].destroyed);
        assert!(shots[0].expired);
        assert_eq!(shots[0].position, Vector2::new(310 * UNIT, 300 * UNIT));
        assert_eq!(score.value(), 70);
        assert!(alien.is_none());
        let medium: Vec<&Asteroid> =
            pieces.iter().filter(|p| p.size == AsteroidSize::MEDIUM).collect();
        let small: Vec<&Asteroid> =
            pieces.iter().filter(|p| p.size == AsteroidSize::SMALL).collect();
        assert_eq!(medium.len() + small.len(), pieces.len());
        assert!(medium.len() == 2 || medium.len() == 3);
        assert!(small.len() == 2 || small.len() == 3);
        child_counts[pieces.len() - 4] = true;
        for piece in &medium {
            assert!((piece.position.x - 300 * UNIT).abs() <= 20 * UNIT);
            assert!((piece.position.y - 300 * UNIT).abs() <= 20 * UNIT);
            assert_eq!(piece.radius, 50 * UNIT);
            assert!(!piece.destroyed);
        }
        for piece in &small {
            assert!((piece.position.x - 320 * UNIT).abs() <= 20 * UNIT);
            assert!((piece.position.y - 300 * UNIT).abs() <= 20 * UNIT);
            assert_eq!(piece.radius, 30 * UNIT);
            assert!(!piece.destroyed);
        }
        assert!(6 <= dust.len() && dust.len() <= 10);
        for particle in &dust {
            assert!(
                particle.position == rocks[0].position || particle.position == rocks[2].position
            );
            assert_eq!(particle.creation_time, NOW);
        }
        assert_eq!(
            sounds.events,
            vec![
                SoundEvent::PlayDetached(Sound::BigExplosion),
                SoundEvent::PlayDetached(Sound::MediumExplosion),
            ]
        );
    }
    assert_eq!(child_counts, [true; 3]);
}

#[test]
fn two_projectiles_in_one_asteroid_each_count() {
    let mut rng = rand::thread_rng();
    let mut alien: Option<Alien> = None;
    let mut shots = vec![shot(300 * UNIT, 300 * UNIT), shot(5, 5), shot(301 * UNIT, 300 * UNIT)];
    let mut rocks = vec![rock(AsteroidSize::SMALL, 300 * UNIT, 300 * UNIT)];
    let mut score = Score::new();
    let mut sounds = Sounds::new();
    let (pieces, dust) = handle_player_projectile_collisions(
        &mut rng, &mut alien, &mut shots, &mut rocks, &mut score, &mut sounds, NOW,
    );
    assert!(rocks[0].destroyed);
    assert!(shots[0].expired);
    assert!(!shots[1].expired);
    assert!(shots[2].expired);
    assert_eq!(score.value(), 200);
    assert!(pieces.is_empty());
    check_burst(&dust, 6, 10, rocks[0].position);
    assert_eq!(sounds.events.len(), 2);
}

#[test]
fn the_alien_takes_a_projectile_before_any_asteroid_does() {
    let mut rng = rand::thread_rng();
    let mut alien = Some(alien_at(300 * UNIT, 300 * UNIT));
    let mut shots = vec![shot(300 * UNIT, 300 * UNIT)];
    let mut rocks = vec![rock(AsteroidSize::BIG, 300 * UNIT, 300 * UNIT)];
    let mut score = Score::new();
    let mut sounds = Sounds::new();
    let (pieces, dust) = handle_player_projectile_collisions(
        &mut rng, &mut alien, &mut shots, &mut rocks, &mut score, &mut sounds, NOW,
    );
    assert_eq!(alien.unwrap().health, 2);
    assert!(!alien.unwrap().expired);
    assert!(!rocks[0].destroyed);
    assert!(shots[0].expired);
    assert_eq!(score.value(), 0);
    assert!(pieces.is_empty());
    check_burst(&dust, 5, 8, Vector2::new(300 * UNIT, 300 * UNIT));
    assert_eq!(sounds.events, vec![SoundEvent::PlayDetached(Sound::AlienHit)]);
}

#[test]
fn the_hit_that_takes_the_aliens_last_health_scores() {
    let mut rng = rand::thread_rng();
    for _ in 0..50 {
        let mut alien = Some(alien_at(300 * UNIT, 300 * UNIT));
        let mut shots = vec![
            shot(300 * UNIT, 300 * UNIT),
            shot(700 * UNIT, 700 * UNIT),
            shot(310 * UNIT, 290 * UNIT),
            shot(290 * UNIT, 310 * UNIT),
            shot(300 * UNIT, 301 * UNIT),
        ];
        let mut rocks = vec![rock(AsteroidSize::MEDIUM, 700 * UNIT, 700 * UNIT)];
        let mut score = Score::new();
        let mut sounds = Sounds::new();
        let (pieces, dust) = handle_player_projectile_collisions(
            &mut rng, &mut alien, &mut shots, &mut rocks, &mut score, &mut sounds, NOW,
        );
        let alien = alien.unwrap();
        assert_eq!(alien.health, 0);
        assert!(alien.expired);
        assert!(shots.iter().all(|s| s.expired));
        assert!(rocks[0].destroyed);
        assert_eq!(score.value(), 150);
        assert!(pieces.len() == 2 || pieces.len() == 3);
        let at_alien = dust.iter().filter(|p| p.position == alien.position).count();
        let at_rock = dust.iter().filter(|p| p.position == rocks[0].position).count();
        assert_eq!(at_alien + at_rock, dust.len());
        assert!(4 * 5 + 6 <= at_alien && at_alien <= 4 * 8 + 10, "{}", at_alien);
        assert!(3 <= at_rock && at_rock <= 5);
        assert_eq!(
            sounds.events,
            vec![
                SoundEvent::PlayDetached(Sound::AlienHit),
                SoundEvent::PlayDetached(Sound::MediumExplosion),
                SoundEvent::PlayDetached(Sound::AlienHit),
                SoundEvent::PlayDetached(Sound::AlienExplosion),
                SoundEvent::PlayDetached(Sound::AlienHit),
            ]
        );
    }
}

#[test]
fn projectiles_that_hit_nothing_change_nothing() {
    let mut rng = rand::thread_rng();
    let mut alien = Some(alien_at(100 * UNIT, 100 * UNIT));
    let mut shots = vec![shot(900 * UNIT, 900 * UNIT), shot(5, 5)];
    let mut rocks = vec![rock(AsteroidSize::BIG, 500 * UNIT, 500 * UNIT)];
    let before = (shots.clone(), rocks.clone());
    let mut score = Score { score: 40 };
    let mut sounds = Sounds::new();
    let (pieces, dust) = handle_player_projectile_collisions(
        &mut rng, &mut alien, &mut shots, &mut rocks, &mut score, &mut sounds, NOW,
    );
    assert_eq!((shots, rocks), before);
    assert_eq!(alien.unwrap().health, 3);
    assert_eq!(score.value(), 40);
    assert!(pieces.is_empty() && dust.is_empty());
    assert!(sounds.events.is_empty());
    let mut none: Vec<Projectile> = Vec::new();
    let mut rocks = before.1.clone();
    let (pieces, dust) = handle_player_projectile_collisions(
        &mut rng, &mut alien, &mut none, &mut rocks, &mut score, &mut sounds, NOW,
    );
    assert!(pieces.is_empty() && dust.is_empty());
    assert_eq!(rocks, before.1);
}

#[test]
fn the_first_of_the_aliens_projectiles_in_the_ship_hits_it() {
    let mut rng = rand::thread_rng();
    for _ in 0..50 {
        let mut ship = Ship::new(&arena(), 0);
        let mut shots = vec![
            shot(10 * UNIT, 10 * UNIT),
            shot(500 * UNIT, 500 * UNIT),
            shot(501 * UNIT, 501 * UNIT),
        ];
        let mut rocks = vec![rock(AsteroidSize::BIG, 520 * UNIT, 520 * UNIT)];
        let mut score = Score::new();
        let mut sounds = Sounds::new();
        let (pieces, dust) = handle_alien_projectile_collisions(
            &mut rng, &mut ship, &mut shots, &mut rocks, &mut score, &mut sounds, NOW,
        );
        assert_eq!(ship.health, 4);
        assert!(ship.immune);
        assert_eq!(ship.immune_instant, NOW);
        assert!(!shots[0].expired);
        assert!(shots[1].expired);
        assert!(shots[2].expired);
        assert!(rocks[0].destroyed);
        assert_eq!(score.value(), 20);
        assert!(pieces.len() == 2 || pieces.len() == 3);
        let at_ship = dust.iter().filter(|p| p.position == ship.position).count();
        let at_rock = dust.iter().filter(|p| p.position == rocks[0].position).count();
        assert_eq!(at_ship + at_rock, dust.len());
        assert!(5 <= at_ship && at_ship <= 8);
        assert!(3 <= at_rock && at_rock <= 5);
        assert_eq!(
            sounds.events,
            vec![
                SoundEvent::PlayDetached(Sound::ShipHit),
                SoundEvent::PlayDetached(Sound::BigExplosion),
            ]
        );
    }
}

#[test]
fn an_immune_ship_lets_projectiles_pass() {
    let mut rng = rand::thread_rng();
    let mut ship = Ship::new(&arena(), 0);
    ship.take_damage(5);
    let mut shots = vec![shot(500 * UNIT, 500 * UNIT)];
    let mut rocks = vec![rock(AsteroidSize::SMALL, 900 * UNIT, 900 * UNIT)];
    let mut score = Score::new();
    let mut sounds = Sounds::new();
    let (pieces, dust) = handle_alien_projectile_collisions(
        &mut rng, &mut ship, &mut shots, &mut rocks, &mut score, &mut sounds, NOW,
    );
    assert_eq!(ship.health, 4);
    assert_eq!(ship.immune_instant, 5);
    assert!(!shots[0].expired);
    assert!(!rocks[0].destroyed);
    assert!(pieces.is_empty() && dust.is_empty());
    assert!(sounds.events.is_empty());
    assert_eq!(score.value(), 0);
}

#[test]
fn ship_and_alien_each_take_a_hit_when_they_meet() {
    let mut rng = rand::thread_rng();
    let mut ship = Ship::new(&arena(), 0);
    let mut alien = Some(alien_at(510 * UNIT, 500 * UNIT));
    let mut score = Score::new();
    let mut sounds = Sounds::new();
    let burst = handle_ship_alien_collisions(
        &mut rng, &mut ship, &mut alien, &mut score, &mut sounds, NOW,
    )
    .unwrap();
    assert_eq!(ship.health, 4);
    assert!(ship.immune);
    assert_eq!(alien.unwrap().health, 2);
    assert_eq!(score.value(), 0);
    check_burst(&burst, 5, 8, ship.position);
    assert_eq!(
        sounds.events,
        vec![
            SoundEvent::PlayDetached(Sound::AlienHit),
            SoundEvent::PlayDetached(Sound::ShipCollision),
        ]
    );
    let again = handle_ship_alien_collisions(
        &mut rng, &mut ship, &mut alien, &mut score, &mut sounds, NOW,
    );
    assert!(again.is_none());
    assert_eq!(alien.unwrap().health, 2);
}

#[test]
fn ramming_an_alien_with_one_health_destroys_it() {
    let mut rng = rand::thread_rng();
    let mut ship = Ship::new(&arena(), 0);
    let mut target = alien_at(510 * UNIT, 500 * UNIT);
    target.health = 1;
    let mut alien = Some(target);
    let mut score = Score { score: 20 };
    let mut sounds = Sounds::new();
    let burst = handle_ship_alien_collisions(
        &mut rng, &mut ship, &mut alien, &mut score, &mut sounds, NOW,
    )
    .unwrap();
    assert_eq!(ship.health, 4);
    assert_eq!(alien.unwrap().health, 0);
    assert!(alien.unwrap().expired);
    assert_eq!(score.value(), 120);
    check_burst(&burst, 5, 8, ship.position);
    assert_eq!(
        sounds.events,
        vec![
            SoundEvent::PlayDetached(Sound::AlienExplosion),
            SoundEvent::PlayDetached(Sound::ShipCollision),
        ]
    );
}

#[test]
fn ship_and_alien_apart_or_absent_do_nothing() {
    let mut rng = rand::thread_rng();
    let mut ship = Ship::new(&arena(), 0);
    let mut score = Score::new();
    let mut sounds = Sounds::new();
    let mut far = Some(alien_at(100 * UNIT, 100 * UNIT));
    let burst =
        handle_ship_alien_collisions(&mut rng, &mut ship, &mut far, &mut score, &mut sounds, NOW)
            .unwrap();
    assert!(burst.is_empty());
    assert_eq!(ship.health, 5);
    assert_eq!(far.unwrap().health, 3);
    let mut absent: Option<Alien> = None;
    assert!(handle_ship_alien_collisions(
        &mut rng, &mut ship, &mut absent, &mut score, &mut sounds, NOW
    )
    .is_none());
    assert!(sounds.events.is_empty());
    assert_eq!(score.value(), 0);
}

#[test]
fn a_hit_on_an_asteroid_destroys_it_and_scores() {
    let mut rng = rand::thread_rng();
    let mut projectile = shot(0, 0);
    let mut asteroid = rock(AsteroidSize::MEDIUM, 40 * UNIT, 40 * UNIT);
    let mut score = Score::new();
    let mut sounds = Sounds::new();
    let (pieces, dust) = handle_projectile_asteroid_hit(
        &mut rng, &mut projectile, &mut asteroid, &mut score, &mut sounds, NOW,
    );
    assert!(projectile.expired);
    assert!(asteroid.destroyed);
    assert_eq!(score.value(), 50);
    assert!(pieces.len() == 2 || pieces.len() == 3);
    assert!(pieces.iter().all(|p| p.size == AsteroidSize::SMALL));
    check_burst(&dust, 3, 5, asteroid.position);
    assert_eq!(sounds.events, vec![SoundEvent::PlayDetached(Sound::MediumExplosion)]);
}

#[test]
fn single_hits_on_alien_and_ship() {
    let mut rng = rand::thread_rng();
    let mut projectile = shot(0, 0);
    let mut alien = alien_at(9, 9);
    alien.health = 1;
    let mut score = Score::new();
    let mut sounds = Sounds::new();
    let dust = handle_projectile_alien_hit(
        &mut rng, &mut projectile, &mut alien, &mut score, &mut sounds, NOW,
    );
    assert!(projectile.expired);
    assert_eq!(alien.health, 0);
    assert!(alien.expired);
    assert_eq!(score.value(), 100);
    check_burst(&dust, 11, 18, alien.position);
    let mut ship = Ship::new(&arena(), 0);
    let mut projectile = shot(0, 0);
    let dust =
        handle_alien_projectile_ship_hit(&mut rng, &mut projectile, &mut ship, &mut sounds, NOW);
    assert!(projectile.expired);
    assert_eq!(ship.health, 4);
    check_burst(&dust, 5, 8, ship.position);
    let dust = handle_ship_collision(&mut rng, &mut ship, &mut sounds, NOW + 1);
    assert_eq!(ship.health, 3);
    assert_eq!(ship.immune_instant, NOW + 1);
    assert_eq!(dust.iter().filter(|p| p.creation_time == NOW + 1).count(), dust.len());
    assert_eq!(
        sounds.events,
        vec![
            SoundEvent::PlayDetached(Sound::AlienExplosion),
            SoundEvent::PlayDetached(Sound::ShipHit),
            SoundEvent::PlayDetached(Sound::ShipCollision),
        ]
    );
}

#[test]
fn one_projectile_at_a_time() {
    let mut rng = rand::thread_rng();
    let mut rocks = vec![
        rock(AsteroidSize::SMALL, 100 * UNIT, 100 * UNIT),
        rock(AsteroidSize::SMALL, 110 * UNIT, 100 * UNIT),
        rock(AsteroidSize::SMALL, 800 * UNIT, 100 * UNIT),
    ];
    let mut score = Score::new();
    let mut sounds = Sounds::new();
    let mut projectile = shot(105 * UNIT, 100 * UNIT);
    let (pieces, dust) =
        strike_asteroids(&mut rng, &mut projectile, &mut rocks, &mut score, &mut sounds, NOW);
    assert!(projectile.expired);
    assert!(rocks[0].destroyed && rocks[1].destroyed && !rocks[2].destroyed);
    assert_eq!(score.value(), 200);
    assert!(pieces.is_empty());
    assert!(6 <= dust.len() && dust.len() <= 10);
    let mut alien = Some(alien_at(800 * UNIT, 100 * UNIT));
    let mut projectile = shot(800 * UNIT, 100 * UNIT);
    let (pieces, dust) = resolve_player_projectile(
        &mut rng, &mut alien, &mut projectile, &mut rocks, &mut score, &mut sounds, NOW,
    );
    assert!(projectile.expired);
    assert!(!rocks[2].destroyed);
    assert_eq!(alien.unwrap().health, 2);
    assert!(pieces.is_empty());
    check_burst(&dust, 5, 8, alien.unwrap().position);
    let mut ship = Ship::new(&arena(), 0);
    let mut projectile = shot(800 * UNIT, 100 * UNIT);
    let (_, dust) = resolve_alien_projectile(
        &mut rng, &mut ship, &mut projectile, &mut rocks, &mut score, &mut sounds, NOW,
    );
    assert!(projectile.expired);
    assert!(rocks[2].destroyed);
    assert_eq!(ship.health, 5);
    assert_eq!(score.value(), 300);
    check_burst(&dust, 3, 5, rocks[2].position);
}
