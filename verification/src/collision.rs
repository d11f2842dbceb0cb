//! Who hits whom, and what comes of it. Every test compares upright ranges:
//! nothing here turns with the ship.

use rand::rngs::ThreadRng;
use vstd::prelude::*;
use crate::alien::{Alien, ALIEN_NEGATIVE_Y_BOUND, ALIEN_POSITIVE_Y_BOUND, ALIEN_X_BOUND};
use crate::asteroid::{Asteroid, AsteroidSize};
use crate::particle::Particle;
use crate::projectile::Projectile;
use crate::score::{asteroid_points, awarded, lemma_award_order, Score, ALIEN_POINTS};
use crate::ship::Ship;
use crate::sounds::{explosion_of, Sound, SoundEvent, Sounds};

verus! {

/// What the box of an asteroid or of the alien is drawn in by on every side
/// before the ship's box is held against it, so that a near miss is a miss.
pub const COLLISION_INSET: i64 = 5_000_000;

/// A hit on an asteroid throws out at least this many particles.
pub const ASTEROID_BURST_MIN: u32 = 3;

pub const ASTEROID_BURST_MAX: u32 = 5;

/// A hit on the alien or on the ship throws out at least this many.
pub const HIT_BURST_MIN: u32 = 5;

pub const HIT_BURST_MAX: u32 = 8;

/// The hit that destroys the alien throws out at least this many more.
pub const KILL_BURST_MIN: u32 = 6;

pub const KILL_BURST_MAX: u32 = 10;

/// The point lies inside the asteroid's box, which reaches one radius from
/// its centre on each side. A point on the edge is outside.
pub open spec fn projectile_hits_asteroid(projectile: Projectile, asteroid: Asteroid) -> bool {
    &&& asteroid.position.x - asteroid.radius < projectile.position.x < asteroid.position.x
        + asteroid.radius
    &&& asteroid.position.y - asteroid.radius < projectile.position.y < asteroid.position.y
        + asteroid.radius
}

/// The point lies inside the alien's box, which reaches farther up from its
/// position than down.
pub open spec fn projectile_hits_alien(projectile: Projectile, alien: Alien) -> bool {
    &&& alien.position.x - ALIEN_X_BOUND < projectile.position.x < alien.position.x
        + ALIEN_X_BOUND
    &&& alien.position.y - ALIEN_NEGATIVE_Y_BOUND < projectile.position.y < alien.position.y
        + ALIEN_POSITIVE_Y_BOUND
}

/// The point lies inside the ship's collision box.
pub open spec fn projectile_hits_ship(projectile: Projectile, ship: Ship) -> bool {
    &&& ship.collision_rect_ranges.min.x < projectile.position.x < ship.collision_rect_ranges.max.x
    &&& ship.collision_rect_ranges.min.y < projectile.position.y < ship.collision_rect_ranges.max.y
}

/// The range `low ..= high` meets the range between `other_low` and
/// `other_high`: an end of the first lies inside the second, or the first
/// reaches over the whole of the second.
pub open spec fn ranges_overlap(low: int, high: int, other_low: int, other_high: int) -> bool {
    ||| other_low < high < other_high
    ||| other_low < low < other_high
    ||| (low <= other_low && other_high <= high)
}

/// The ship's box meets the asteroid's box drawn in by the inset.
pub open spec fn ship_hits_asteroid(ship: Ship, asteroid: Asteroid) -> bool {
    &&& ranges_overlap(
        ship.collision_rect_ranges.min.x as int,
        ship.collision_rect_ranges.max.x as int,
        asteroid.position.x - asteroid.radius + COLLISION_INSET,
        asteroid.position.x + asteroid.radius - COLLISION_INSET,
    )
    &&& ranges_overlap(
        ship.collision_rect_ranges.min.y as int,
        ship.collision_rect_ranges.max.y as int,
        asteroid.position.y - asteroid.radius + COLLISION_INSET,
        asteroid.position.y + asteroid.radius - COLLISION_INSET,
    )
}

/// The ship's box meets the alien's box drawn in by the inset.
pub open spec fn ship_hits_alien(ship: Ship, alien: Alien) -> bool {
    &&& ranges_overlap(
        ship.collision_rect_ranges.min.x as int,
        ship.collision_rect_ranges.max.x as int,
        alien.position.x - ALIEN_X_BOUND + COLLISION_INSET,
        alien.position.x + ALIEN_X_BOUND - COLLISION_INSET,
    )
    &&& ranges_overlap(
        ship.collision_rect_ranges.min.y as int,
        ship.collision_rect_ranges.max.y as int,
        alien.position.y - ALIEN_NEGATIVE_Y_BOUND + COLLISION_INSET,
        alien.position.y + ALIEN_POSITIVE_Y_BOUND - COLLISION_INSET,
    )
}

/// Two ranges that are not empty overlap exactly when each begins before
/// the other ends.
pub proof fn lemma_ranges_overlap(low: int, high: int, other_low: int, other_high: int)
    requires
        low <= high,
        other_low < other_high,
    ensures
        ranges_overlap(low, high, other_low, other_high) <==> (low < other_high && other_low
            < high),
{
}

/// Whether one range meets another.
pub fn overlap(low: i64, high: i64, other_low: i64, other_high: i64) -> (hit: bool)
    ensures
        hit == ranges_overlap(low as int, high as int, other_low as int, other_high as int),
{
    (other_low < high && high < other_high) || (other_low < low && low < other_high) || (low
        <= other_low && other_high <= high)
}

pub fn projectile_asteroid_hit(projectile: &Projectile, asteroid: &Asteroid) -> (hit: bool)
    requires
        asteroid.wf(),
    ensures
        hit == projectile_hits_asteroid(*projectile, *asteroid),
{
    let asteroid_x_range: (i64, i64) = (
        asteroid.position.x - asteroid.radius,
        asteroid.position.x + asteroid.radius,
    );
    let asteroid_y_range: (i64, i64) = (
        asteroid.position.y - asteroid.radius,
        asteroid.position.y + asteroid.radius,
    );
    let x_overlap: bool = projectile.position.x > asteroid_x_range.0 && projectile.position.x
        < asteroid_x_range.1;
    let y_overlap: bool = projectile.position.y > asteroid_y_range.0 && projectile.position.y
        < asteroid_y_range.1;
    x_overlap && y_overlap
}

pub fn projectile_alien_hit(projectile: &Projectile, alien: &Alien) -> (hit: bool)
    requires
        alien.wf(),
    ensures
        hit == projectile_hits_alien(*projectile, *alien),
{
    let alien_x_range: (i64, i64) = (
        alien.position.x - ALIEN_X_BOUND,
        alien.position.x + ALIEN_X_BOUND,
    );
    let alien_y_range: (i64, i64) = (
        alien.position.y - ALIEN_NEGATIVE_Y_BOUND,
        alien.position.y + ALIEN_POSITIVE_Y_BOUND,
    );
    let x_overlap: bool = projectile.position.x > alien_x_range.0 && projectile.position.x
        < alien_x_range.1;
    let y_overlap: bool = projectile.position.y > alien_y_range.0 && projectile.position.y
        < alien_y_range.1;
    x_overlap && y_overlap
}

pub fn alien_projectile_ship_hit(projectile: &Projectile, ship: &Ship) -> (hit: bool)
    ensures
        hit == projectile_hits_ship(*projectile, *ship),
{
    let x_overlap: bool = projectile.position.x > ship.collision_rect_ranges.min.x
        && projectile.position.x < ship.collision_rect_ranges.max.x;
    let y_overlap: bool = projectile.position.y > ship.collision_rect_ranges.min.y
        && projectile.position.y < ship.collision_rect_ranges.max.y;
    x_overlap && y_overlap
}

pub fn ship_asteroid_collision(ship: &Ship, asteroid: &Asteroid) -> (hit: bool)
    requires
        asteroid.wf(),
    ensures
        hit == ship_hits_asteroid(*ship, *asteroid),
{
    let x_overlap: bool = overlap(
        ship.collision_rect_ranges.min.x,
        ship.collision_rect_ranges.max.x,
        asteroid.position.x - asteroid.radius + COLLISION_INSET,
        asteroid.position.x + asteroid.radius - COLLISION_INSET,
    );
    let y_overlap: bool = overlap(
        ship.collision_rect_ranges.min.y,
        ship.collision_rect_ranges.max.y,
        asteroid.position.y - asteroid.radius + COLLISION_INSET,
        asteroid.position.y + asteroid.radius - COLLISION_INSET,
    );
    x_overlap && y_overlap
}

pub fn ship_alien_collision(ship: &Ship, alien: &Alien) -> (hit: bool)
    requires
        alien.wf(),
    ensures
        hit == ship_hits_alien(*ship, *alien),
{
    let x_overlap: bool = overlap(
        ship.collision_rect_ranges.min.x,
        ship.collision_rect_ranges.max.x,
        alien.position.x - ALIEN_X_BOUND + COLLISION_INSET,
        alien.position.x + ALIEN_X_BOUND - COLLISION_INSET,
    );
    let y_overlap: bool = overlap(
        ship.collision_rect_ranges.min.y,
        ship.collision_rect_ranges.max.y,
        alien.position.y - ALIEN_NEGATIVE_Y_BOUND + COLLISION_INSET,
        alien.position.y + ALIEN_POSITIVE_Y_BOUND - COLLISION_INSET,
    );
    x_overlap && y_overlap
}

/// The asteroid, destroyed if it was hit.
pub open spec fn marked(rock: Asteroid, hit: bool) -> Asteroid {
    Asteroid { destroyed: rock.destroyed || hit, ..rock }
}

/// The projectile, expired if it hit something.
pub open spec fn spent(shot: Projectile, hit: bool) -> Projectile {
    Projectile { expired: shot.expired || hit, ..shot }
}

/// Every particle of the burst is fresh and sits at `position`.
pub open spec fn burst_at(
    particles: Seq<Particle>,
    position: crate::vector::Vector2,
    now: u64,
) -> bool {
    forall|i: int| 0 <= i < particles.len() ==> (#[trigger] particles[i]).is_fresh(position, now)
}

/// The ship takes one hit by running into something.
pub fn handle_ship_collision(
    rng: &mut ThreadRng,
    ship: &mut Ship,
    sounds: &mut Sounds,
    now: u64,
) -> (particles: Vec<Particle>)
    requires
        old(ship).wf(),
    ensures
        *final(ship) == old(ship).damaged(now),
        final(ship).wf(),
        final(sounds).queued_one(*old(sounds), SoundEvent::PlayDetached(Sound::ShipCollision)),
        HIT_BURST_MIN <= particles@.len() <= HIT_BURST_MAX,
        burst_at(particles@, old(ship).position, now),
{
    ship.take_damage(now);
    sounds.play_ship_collision_sound();
    Particle::create_particle_effect(rng, &ship.position, HIT_BURST_MIN, HIT_BURST_MAX, now)
}

/// The ship takes one hit from a projectile of the alien, which is used up.
pub fn handle_alien_projectile_ship_hit(
    rng: &mut ThreadRng,
    projectile: &mut Projectile,
    ship: &mut Ship,
    sounds: &mut Sounds,
    now: u64,
) -> (particles: Vec<Particle>)
    requires
        old(ship).wf(),
    ensures
        *final(projectile) == spent(*old(projectile), true),
        *final(ship) == old(ship).damaged(now),
        final(ship).wf(),
        final(sounds).queued_one(*old(sounds), SoundEvent::PlayDetached(Sound::ShipHit)),
        HIT_BURST_MIN <= particles@.len() <= HIT_BURST_MAX,
        burst_at(particles@, old(ship).position, now),
{
    projectile.expired = true;
    ship.take_damage(now);
    sounds.play_ship_hit_sound();
    Particle::create_particle_effect(rng, &ship.position, HIT_BURST_MIN, HIT_BURST_MAX, now)
}

/// The fewest particles that a hit on the alien throws out.
pub open spec fn alien_burst_min(alien: Alien) -> int {
    if alien.dies_of_hit() {
        HIT_BURST_MIN + KILL_BURST_MIN
    } else {
        HIT_BURST_MIN as int
    }
}

/// The most particles that a hit on the alien throws out.
pub open spec fn alien_burst_max(alien: Alien) -> int {
    if alien.dies_of_hit() {
        HIT_BURST_MAX + KILL_BURST_MAX
    } else {
        HIT_BURST_MAX as int
    }
}

/// What the score is after a hit on the alien: the alien's points are added
/// by the hit that destroys it.
pub open spec fn score_after_alien_hit(score: int, alien: Alien) -> int {
    if alien.dies_of_hit() {
        awarded(score, ALIEN_POINTS as int)
    } else {
        score
    }
}

/// The sound of a hit on the alien.
pub open spec fn alien_hit_cue(alien: Alien) -> SoundEvent {
    if alien.dies_of_hit() {
        SoundEvent::PlayDetached(Sound::AlienExplosion)
    } else {
        SoundEvent::PlayDetached(Sound::AlienHit)
    }
}

/// The alien takes one hit from a projectile, which is used up. The hit
/// that takes its last health scores and throws out a second burst.
pub fn handle_projectile_alien_hit(
    rng: &mut ThreadRng,
    projectile: &mut Projectile,
    alien: &mut Alien,
    score: &mut Score,
    sounds: &mut Sounds,
    now: u64,
) -> (particles: Vec<Particle>)
    requires
        old(alien).wf(),
    ensures
        *final(projectile) == spent(*old(projectile), true),
        *final(alien) == old(alien).hit(),
        final(alien).wf(),
        final(score).score == score_after_alien_hit(old(score).score as int, *old(alien)),
        final(sounds).queued_one(*old(sounds), alien_hit_cue(*old(alien))),
        alien_burst_min(*old(alien)) <= particles@.len() <= alien_burst_max(*old(alien)),
        burst_at(particles@, old(alien).position, now),
{
    projectile.expired = true;
    let destroyed: bool = alien.take_hit();
    let mut particles: Vec<Particle> = Particle::create_particle_effect(
        rng,
        &alien.position,
        HIT_BURST_MIN,
        HIT_BURST_MAX,
        now,
    );
    if destroyed {
        score.update_score_alien();
        sounds.play_alien_explosion_sound();
        let mut more: Vec<Particle> = Particle::create_particle_effect(
            rng,
            &alien.position,
            KILL_BURST_MIN,
            KILL_BURST_MAX,
            now,
        );
        particles.append(&mut more);
    } else {
        sounds.play_alien_hit_sound();
    }
    particles
}

/// Every piece is a fresh piece of `parent`.
pub open spec fn pieces_of(pieces: Seq<Asteroid>, parent: Asteroid) -> bool {
    forall|i: int| 0 <= i < pieces.len() ==> (#[trigger] pieces[i]).is_piece_of(parent)
}

/// An asteroid is hit by a projectile: the asteroid is destroyed and leaves
/// its pieces, the projectile is used up, and the asteroid's points are
/// scored.
pub fn handle_projectile_asteroid_hit(
    rng: &mut ThreadRng,
    projectile: &mut Projectile,
    asteroid: &mut Asteroid,
    score: &mut Score,
    sounds: &mut Sounds,
    now: u64,
) -> (new_asteroids_and_particles: (Vec<Asteroid>, Vec<Particle>))
    requires
        old(asteroid).wf(),
    ensures
        *final(projectile) == spent(*old(projectile), true),
        *final(asteroid) == marked(*old(asteroid), true),
        final(score).score == awarded(
            old(score).score as int,
            asteroid_points(old(asteroid).size),
        ),
        final(sounds).queued_one(
            *old(sounds),
            SoundEvent::PlayDetached(explosion_of(old(asteroid).size)),
        ),
        old(asteroid).size == AsteroidSize::SMALL ==> new_asteroids_and_particles.0@.len() == 0,
        old(asteroid).size != AsteroidSize::SMALL ==> 2 <= new_asteroids_and_particles.0@.len()
            <= 3,
        pieces_of(new_asteroids_and_particles.0@, *old(asteroid)),
        ASTEROID_BURST_MIN <= new_asteroids_and_particles.1@.len() <= ASTEROID_BURST_MAX,
        burst_at(new_asteroids_and_particles.1@, old(asteroid).position, now),
{
    let new_particles: Vec<Particle> = Particle::create_particle_effect(
        rng,
        &asteroid.position,
        ASTEROID_BURST_MIN,
        ASTEROID_BURST_MAX,
        now,
    );
    let new_asteroids: Vec<Asteroid> = asteroid.destroy_asteroid(rng);
    projectile.expired = true;
    score.update_score_asteroid(&asteroid.size);
    sounds.play_asteroid_break_sound(&asteroid.size);
    (new_asteroids, new_particles)
}

/// Every asteroid of the sequence is well formed.
pub open spec fn rocks_wf(rocks: Seq<Asteroid>) -> bool {
    forall|j: int| 0 <= j < rocks.len() ==> (#[trigger] rocks[j]).wf()
}

/// Every projectile of the sequence is well formed.
pub open spec fn shots_wf(shots: Seq<Projectile>) -> bool {
    forall|i: int| 0 <= i < shots.len() ==> (#[trigger] shots[i]).wf()
}

/// Every asteroid of the sequence is well formed and not destroyed.
pub open spec fn all_new_rocks(rocks: Seq<Asteroid>) -> bool {
    forall|i: int| 0 <= i < rocks.len() ==> (#[trigger] rocks[i]).wf() && !rocks[i].destroyed
}

/// Every particle of the sequence is well formed, was made at `now` and is
/// not expired.
pub open spec fn all_new_dust(dust: Seq<Particle>, now: u64) -> bool {
    forall|i: int|
        0 <= i < dust.len() ==> (#[trigger] dust[i]).wf() && !dust[i].expired
            && dust[i].creation_time == now
}

/// How many of the first `n` asteroids the projectile hits.
pub open spec fn row_hits(shot: Projectile, rocks: Seq<Asteroid>, n: int) -> int
    decreases n,
{
    if n <= 0 {
        0
    } else {
        row_hits(shot, rocks, n - 1) + if projectile_hits_asteroid(shot, rocks[n - 1]) {
            1int
        } else {
            0int
        }
    }
}

/// How many of the first `n` asteroids the projectile hits that break into
/// pieces.
pub open spec fn row_breaks(shot: Projectile, rocks: Seq<Asteroid>, n: int) -> int
    decreases n,
{
    if n <= 0 {
        0
    } else {
        row_breaks(shot, rocks, n - 1) + if projectile_hits_asteroid(shot, rocks[n - 1])
            && rocks[n - 1].size != AsteroidSize::SMALL {
            1int
        } else {
            0int
        }
    }
}

/// What the asteroids among the first `n` that the projectile hits are
/// worth together.
pub open spec fn row_points(shot: Projectile, rocks: Seq<Asteroid>, n: int) -> int
    decreases n,
{
    if n <= 0 {
        0
    } else {
        row_points(shot, rocks, n - 1) + if projectile_hits_asteroid(shot, rocks[n - 1]) {
            asteroid_points(rocks[n - 1].size)
        } else {
            0int
        }
    }
}

/// The sounds of the asteroids among the first `n` that the projectile
/// hits, in their order.
pub open spec fn row_cues(shot: Projectile, rocks: Seq<Asteroid>, n: int) -> Seq<SoundEvent>
    decreases n,
{
    if n <= 0 {
        Seq::empty()
    } else if projectile_hits_asteroid(shot, rocks[n - 1]) {
        row_cues(shot, rocks, n - 1).push(SoundEvent::PlayDetached(explosion_of(rocks[n - 1].size)))
    } else {
        row_cues(shot, rocks, n - 1)
    }
}

/// The asteroids after the projectile has passed: those it hits are
/// destroyed, and nothing else about any of them has changed.
pub open spec fn struck(rocks: Seq<Asteroid>, shot: Projectile) -> Seq<Asteroid> {
    Seq::new(rocks.len(), |j: int| marked(rocks[j], projectile_hits_asteroid(shot, rocks[j])))
}

/// The pieces that one hit on `rock` leaves: two or three fresh pieces of
/// it, or none where it is of the smallest size.
pub open spec fn hit_pieces(pieces: Seq<Asteroid>, rock: Asteroid) -> bool {
    &&& pieces_of(pieces, rock)
    &&& if rock.size == AsteroidSize::SMALL {
        pieces.len() == 0
    } else {
        2 <= pieces.len() <= 3
    }
}

/// The particles that one hit on `rock` throws out at `now`.
pub open spec fn hit_dust(dust: Seq<Particle>, rock: Asteroid, now: u64) -> bool {
    &&& ASTEROID_BURST_MIN <= dust.len() <= ASTEROID_BURST_MAX
    &&& burst_at(dust, rock.position, now)
}

/// The pieces can be cut before the piece at `p`, and the particles before
/// the particle at `d`.
pub open spec fn cut_at(pieces: Seq<Asteroid>, dust: Seq<Particle>, p: int, d: int) -> bool {
    0 <= p <= pieces.len() && 0 <= d <= dust.len()
}

/// The particles can be cut before the particle at `d`.
pub open spec fn dust_cut_at(dust: Seq<Particle>, d: int) -> bool {
    0 <= d <= dust.len()
}

/// What the projectile leaves behind among the first `n` asteroids: for
/// each one that it hits, in their order, the pieces of that asteroid and
/// the particles that it throws out, and nothing else.
pub open spec fn row_debris(
    pieces: Seq<Asteroid>,
    dust: Seq<Particle>,
    shot: Projectile,
    rocks: Seq<Asteroid>,
    n: int,
    now: u64,
) -> bool
    decreases n,
{
    if n <= 0 {
        pieces.len() == 0 && dust.len() == 0
    } else if projectile_hits_asteroid(shot, rocks[n - 1]) {
        exists|p: int, d: int|
            #[trigger] cut_at(pieces, dust, p, d) && row_debris(
                pieces.take(p),
                dust.take(d),
                shot,
                rocks,
                n - 1,
                now,
            ) && hit_pieces(pieces.skip(p), rocks[n - 1]) && hit_dust(
                dust.skip(d),
                rocks[n - 1],
                now,
            )
    } else {
        row_debris(pieces, dust, shot, rocks, n - 1, now)
    }
}

/// The counts over a row are never negative, and a part of the hits break.
pub proof fn lemma_row_counts(shot: Projectile, rocks: Seq<Asteroid>, n: int)
    ensures
        0 <= row_breaks(shot, rocks, n) <= row_hits(shot, rocks, n),
        0 <= row_points(shot, rocks, n),
        row_cues(shot, rocks, n).len() == row_hits(shot, rocks, n),
    decreases n,
{
    if n > 0 {
        lemma_row_counts(shot, rocks, n - 1);
    }
}

/// The projectile hits one of the first `n` asteroids exactly when the
/// count of its hits among them is not zero.
pub proof fn lemma_row_hits_positive(shot: Projectile, rocks: Seq<Asteroid>, n: int)
    requires
        0 <= n <= rocks.len(),
    ensures
        row_hits(shot, rocks, n) > 0 <==> exists|j: int|
            0 <= j < n && projectile_hits_asteroid(shot, #[trigger] rocks[j]),
    decreases n,
{
    lemma_row_counts(shot, rocks, n);
    if n > 0 {
        lemma_row_hits_positive(shot, rocks, n - 1);
        lemma_row_counts(shot, rocks, n - 1);
        if projectile_hits_asteroid(shot, rocks[n - 1]) {
            assert(0 <= n - 1 < n && projectile_hits_asteroid(shot, rocks[n - 1]));
        }
    }
}

/// A row leaves two or three pieces for each asteroid that breaks and from
/// three to five particles for each asteroid that is hit; all of them are
/// new.
pub proof fn lemma_row_debris(
    pieces: Seq<Asteroid>,
    dust: Seq<Particle>,
    shot: Projectile,
    rocks: Seq<Asteroid>,
    n: int,
    now: u64,
)
    requires
        row_debris(pieces, dust, shot, rocks, n, now),
    ensures
        2 * row_breaks(shot, rocks, n) <= pieces.len() <= 3 * row_breaks(shot, rocks, n),
        ASTEROID_BURST_MIN * row_hits(shot, rocks, n) <= dust.len() <= ASTEROID_BURST_MAX
            * row_hits(shot, rocks, n),
        all_new_rocks(pieces),
        all_new_dust(dust, now),
    decreases n,
{
    if n <= 0 {
    } else if projectile_hits_asteroid(shot, rocks[n - 1]) {
        let (p, d) = choose|p: int, d: int|
            #[trigger] cut_at(pieces, dust, p, d) && row_debris(
                pieces.take(p),
                dust.take(d),
                shot,
                rocks,
                n - 1,
                now,
            ) && hit_pieces(pieces.skip(p), rocks[n - 1]) && hit_dust(
                dust.skip(d),
                rocks[n - 1],
                now,
            );
        lemma_row_debris(pieces.take(p), dust.take(d), shot, rocks, n - 1, now);
        assert forall|i: int| 0 <= i < pieces.len() implies (#[trigger] pieces[i]).wf()
            && !pieces[i].destroyed by {
            if i < p {
                assert(pieces[i] == pieces.take(p)[i]);
            } else {
                assert(pieces[i] == pieces.skip(p)[i - p]);
            }
        }
        assert forall|i: int| 0 <= i < dust.len() implies (#[trigger] dust[i]).wf()
            && !dust[i].expired && dust[i].creation_time == now by {
            if i < d {
                assert(dust[i] == dust.take(d)[i]);
            } else {
                assert(dust[i] == dust.skip(d)[i - d]);
                assert(dust.skip(d)[i - d].is_fresh(rocks[n - 1].position, now));
            }
        }
    } else {
        lemma_row_debris(pieces, dust, shot, rocks, n - 1, now);
    }
}

/// One hit more in a row: what the row had left, with what the hit on the
/// next asteroid leaves behind it.
proof fn lemma_row_debris_grows(
    pieces: Seq<Asteroid>,
    dust: Seq<Particle>,
    more_pieces: Seq<Asteroid>,
    more_dust: Seq<Particle>,
    shot: Projectile,
    rocks: Seq<Asteroid>,
    n: int,
    now: u64,
)
    requires
        0 <= n < rocks.len(),
        row_debris(pieces, dust, shot, rocks, n, now),
        projectile_hits_asteroid(shot, rocks[n]),
        hit_pieces(more_pieces, rocks[n]),
        hit_dust(more_dust, rocks[n], now),
    ensures
        row_debris(pieces + more_pieces, dust + more_dust, shot, rocks, n + 1, now),
{
    let all_pieces = pieces + more_pieces;
    let all_dust = dust + more_dust;
    let p = pieces.len() as int;
    let d = dust.len() as int;
    assert(all_pieces.take(p) =~= pieces);
    assert(all_dust.take(d) =~= dust);
    assert(all_pieces.skip(p) =~= more_pieces);
    assert(all_dust.skip(d) =~= more_dust);
    assert(row_debris(all_pieces.take(p), all_dust.take(d), shot, rocks, n, now));
    assert(cut_at(all_pieces, all_dust, p, d));
}

/// One projectile against every asteroid. It goes on after a hit, so it may
/// destroy several asteroids that lie over each other; each of them leaves
/// its pieces, throws out particles, sounds and scores.
pub fn strike_asteroids(
    rng: &mut ThreadRng,
    projectile: &mut Projectile,
    asteroids: &mut Vec<Asteroid>,
    score: &mut Score,
    sounds: &mut Sounds,
    now: u64,
) -> (out: (Vec<Asteroid>, Vec<Particle>))
    requires
        rocks_wf(old(asteroids)@),
    ensures
        final(asteroids)@ == struck(old(asteroids)@, *old(projectile)),
        rocks_wf(final(asteroids)@),
        *final(projectile) == spent(
            *old(projectile),
            row_hits(*old(projectile), old(asteroids)@, old(asteroids)@.len() as int) > 0,
        ),
        final(score).score == awarded(
            old(score).score as int,
            row_points(*old(projectile), old(asteroids)@, old(asteroids)@.len() as int),
        ),
        final(sounds).events@ == old(sounds).events@ + row_cues(
            *old(projectile),
            old(asteroids)@,
            old(asteroids)@.len() as int,
        ),
        final(sounds).same_playing(*old(sounds)),
        row_debris(
            out.0@,
            out.1@,
            *old(projectile),
            old(asteroids)@,
            old(asteroids)@.len() as int,
            now,
        ),
{
    let ghost rocks = asteroids@;
    let ghost shot = *projectile;
    let ghost score_before: u64 = score.score;
    let ghost sounds_before = *sounds;
    let mut new_asteroids: Vec<Asteroid> = Vec::new();
    let mut new_particles: Vec<Particle> = Vec::new();
    let count: usize = asteroids.len();
    let mut j: usize = 0;
    while j < count
        invariant
            0 <= j <= count,
            count == rocks.len(),
            asteroids@.len() == count,
            rocks_wf(rocks),
            forall|k: int|
                0 <= k < j ==> #[trigger] asteroids@[k] == marked(
                    rocks[k],
                    projectile_hits_asteroid(shot, rocks[k]),
                ),
            forall|k: int| j <= k < count ==> #[trigger] asteroids@[k] == rocks[k],
            *projectile == spent(shot, row_hits(shot, rocks, j as int) > 0),
            0 <= row_hits(shot, rocks, j as int),
            0 <= row_points(shot, rocks, j as int),
            score.score == awarded(score_before as int, row_points(shot, rocks, j as int)),
            sounds.events@ == sounds_before.events@ + row_cues(shot, rocks, j as int),
            sounds.same_playing(sounds_before),
            row_debris(new_asteroids@, new_particles@, shot, rocks, j as int, now),
        decreases count - j,
    {
        let mut rock: Asteroid = asteroids[j];
        assert(rock == rocks[j as int]);
        if projectile_asteroid_hit(projectile, &rock) {
            let ghost pieces_before = new_asteroids@;
            let ghost dust_before = new_particles@;
            let ghost cues_before = row_cues(shot, rocks, j as int);
            let (mut pieces, mut dust) = handle_projectile_asteroid_hit(
                rng,
                projectile,
                &mut rock,
                score,
                sounds,
                now,
            );
            asteroids.set(j, rock);
            proof {
                lemma_award_order(
                    score_before as int,
                    row_points(shot, rocks, j as int),
                    asteroid_points(rocks[j as int].size),
                );
                lemma_row_debris_grows(
                    pieces_before,
                    dust_before,
                    pieces@,
                    dust@,
                    shot,
                    rocks,
                    j as int,
                    now,
                );
                assert(sounds.events@ =~= sounds_before.events@ + cues_before.push(
                    SoundEvent::PlayDetached(explosion_of(rocks[j as int].size)),
                ));
            }
            new_asteroids.append(&mut pieces);
            new_particles.append(&mut dust);
        }
        j = j + 1;
    }
    proof {
        assert(asteroids@ =~= struck(rocks, shot));
    }
    (new_asteroids, new_particles)
}

/// The second sequence holds the asteroids of the first, except that other
/// ones of them may be destroyed.
pub open spec fn same_but_flags(rocks: Seq<Asteroid>, others: Seq<Asteroid>) -> bool {
    &&& rocks.len() == others.len()
    &&& forall|j: int|
        0 <= j < rocks.len() ==> #[trigger] others[j] == (Asteroid {
            destroyed: others[j].destroyed,
            ..rocks[j]
        })
}

/// Which asteroids a projectile hits, what they are worth and what they
/// leave behind does not depend on which of them are destroyed already.
pub proof fn lemma_row_ignores_flags(
    shot: Projectile,
    rocks: Seq<Asteroid>,
    others: Seq<Asteroid>,
    n: int,
)
    requires
        same_but_flags(rocks, others),
        0 <= n <= rocks.len(),
    ensures
        row_hits(shot, rocks, n) == row_hits(shot, others, n),
        row_breaks(shot, rocks, n) == row_breaks(shot, others, n),
        row_points(shot, rocks, n) == row_points(shot, others, n),
        row_cues(shot, rocks, n) == row_cues(shot, others, n),
    decreases n,
{
    if n > 0 {
        lemma_row_ignores_flags(shot, rocks, others, n - 1);
        assert(others[n - 1] == (Asteroid { destroyed: others[n - 1].destroyed, ..rocks[n - 1] }));
    }
}

/// What a row leaves behind does not depend on which of the asteroids are
/// destroyed already.
pub proof fn lemma_row_debris_ignores_flags(
    pieces: Seq<Asteroid>,
    dust: Seq<Particle>,
    shot: Projectile,
    rocks: Seq<Asteroid>,
    others: Seq<Asteroid>,
    n: int,
    now: u64,
)
    requires
        same_but_flags(rocks, others),
        0 <= n <= rocks.len(),
        row_debris(pieces, dust, shot, others, n, now),
    ensures
        row_debris(pieces, dust, shot, rocks, n, now),
    decreases n,
{
    if n > 0 {
        assert(others[n - 1] == (Asteroid { destroyed: others[n - 1].destroyed, ..rocks[n - 1] }));
        if projectile_hits_asteroid(shot, others[n - 1]) {
            let (p, d) = choose|p: int, d: int|
                #[trigger] cut_at(pieces, dust, p, d) && row_debris(
                    pieces.take(p),
                    dust.take(d),
                    shot,
                    others,
                    n - 1,
                    now,
                ) && hit_pieces(pieces.skip(p), others[n - 1]) && hit_dust(
                    dust.skip(d),
                    others[n - 1],
                    now,
                );
            lemma_row_debris_ignores_flags(
                pieces.take(p),
                dust.take(d),
                shot,
                rocks,
                others,
                n - 1,
                now,
            );
            assert forall|i: int| 0 <= i < pieces.skip(p).len() implies (
            #[trigger] pieces.skip(p)[i]).is_piece_of(rocks[n - 1]) by {
                assert(pieces.skip(p)[i].is_piece_of(others[n - 1]));
            }
            assert(hit_pieces(pieces.skip(p), rocks[n - 1]));
            assert forall|i: int| 0 <= i < dust.skip(d).len() implies (
            #[trigger] dust.skip(d)[i]).is_fresh(rocks[n - 1].position, now) by {
                assert(dust.skip(d)[i].is_fresh(others[n - 1].position, now));
            }
            assert(hit_dust(dust.skip(d), rocks[n - 1], now));
            assert(row_debris(pieces.take(p), dust.take(d), shot, rocks, n - 1, now));
            assert(cut_at(pieces, dust, p, d));
        } else {
            lemma_row_debris_ignores_flags(pieces, dust, shot, rocks, others, n - 1, now);
        }
    }
}

/// The projectile at `i` goes on to the asteroids and hits `rock`.
pub open spec fn reached(
    shots: Seq<Projectile>,
    passes: Seq<bool>,
    rock: Asteroid,
    i: int,
) -> bool {
    &&& 0 <= i < shots.len()
    &&& passes[i]
    &&& projectile_hits_asteroid(shots[i], rock)
}

/// One of the first `n` projectiles goes on to the asteroids and hits
/// `rock`.
pub open spec fn struck_by_pass(
    shots: Seq<Projectile>,
    passes: Seq<bool>,
    rock: Asteroid,
    n: int,
) -> bool {
    exists|i: int| i < n && #[trigger] reached(shots, passes, rock, i)
}

/// The asteroids after the first `n` projectiles: each one that a
/// projectile hit which went on to the asteroids is destroyed, and nothing
/// else about any of them has changed.
pub open spec fn pass_rocks(
    rocks: Seq<Asteroid>,
    shots: Seq<Projectile>,
    passes: Seq<bool>,
    n: int,
) -> Seq<Asteroid> {
    Seq::new(rocks.len(), |j: int| marked(rocks[j], struck_by_pass(shots, passes, rocks[j], n)))
}

/// The projectiles after all of them have been resolved: one is used up
/// where it did not go on to the asteroids, because something else took
/// it, or where it hit an asteroid.
pub open spec fn pass_shots(
    shots: Seq<Projectile>,
    passes: Seq<bool>,
    rocks: Seq<Asteroid>,
) -> Seq<Projectile> {
    Seq::new(
        shots.len(),
        |i: int| spent(shots[i], !passes[i] || row_hits(shots[i], rocks, rocks.len() as int) > 0),
    )
}

/// What the hits of the first `n` projectiles on asteroids are worth.
pub open spec fn pass_points(
    shots: Seq<Projectile>,
    passes: Seq<bool>,
    rocks: Seq<Asteroid>,
    n: int,
) -> int
    decreases n,
{
    if n <= 0 {
        0
    } else {
        pass_points(shots, passes, rocks, n - 1) + if passes[n - 1] {
            row_points(shots[n - 1], rocks, rocks.len() as int)
        } else {
            0int
        }
    }
}

/// The particles that are thrown out at `center` when something there
/// takes a projectile: at least `bounds.0` and at most `bounds.1` of them.
pub open spec fn taker_dust(
    dust: Seq<Particle>,
    center: Option<crate::vector::Vector2>,
    bounds: (int, int),
    now: u64,
) -> bool {
    &&& bounds.0 <= dust.len() <= bounds.1
    &&& center matches Some(c) && burst_at(dust, c, now)
}

/// What the first `n` projectiles leave behind, in their order: one that
/// goes on to the asteroids leaves what its row leaves; one that is taken
/// before leaves the particles thrown out where it was taken, as many as
/// its bounds say.
pub open spec fn pass_debris(
    pieces: Seq<Asteroid>,
    dust: Seq<Particle>,
    shots: Seq<Projectile>,
    passes: Seq<bool>,
    center: Option<crate::vector::Vector2>,
    bounds: Seq<(int, int)>,
    rocks: Seq<Asteroid>,
    n: int,
    now: u64,
) -> bool
    decreases n,
{
    if n <= 0 {
        pieces.len() == 0 && dust.len() == 0
    } else if passes[n - 1] {
        exists|p: int, d: int|
            #[trigger] cut_at(pieces, dust, p, d) && pass_debris(
                pieces.take(p),
                dust.take(d),
                shots,
                passes,
                center,
                bounds,
                rocks,
                n - 1,
                now,
            ) && row_debris(
                pieces.skip(p),
                dust.skip(d),
                shots[n - 1],
                rocks,
                rocks.len() as int,
                now,
            )
    } else {
        exists|d: int|
            #[trigger] dust_cut_at(dust, d) && pass_debris(
                pieces,
                dust.take(d),
                shots,
                passes,
                center,
                bounds,
                rocks,
                n - 1,
                now,
            ) && taker_dust(dust.skip(d), center, bounds[n - 1], now)
    }
}

/// Everything that a pass leaves behind is new.
pub proof fn lemma_pass_debris(
    pieces: Seq<Asteroid>,
    dust: Seq<Particle>,
    shots: Seq<Projectile>,
    passes: Seq<bool>,
    center: Option<crate::vector::Vector2>,
    bounds: Seq<(int, int)>,
    rocks: Seq<Asteroid>,
    n: int,
    now: u64,
)
    requires
        pass_debris(pieces, dust, shots, passes, center, bounds, rocks, n, now),
    ensures
        all_new_rocks(pieces),
        all_new_dust(dust, now),
    decreases n,
{
    if n <= 0 {
    } else if passes[n - 1] {
        let (p, d) = choose|p: int, d: int|
            #[trigger] cut_at(pieces, dust, p, d) && pass_debris(
                pieces.take(p),
                dust.take(d),
                shots,
                passes,
                center,
                bounds,
                rocks,
                n - 1,
                now,
            ) && row_debris(
                pieces.skip(p),
                dust.skip(d),
                shots[n - 1],
                rocks,
                rocks.len() as int,
                now,
            );
        lemma_pass_debris(
            pieces.take(p),
            dust.take(d),
            shots,
            passes,
            center,
            bounds,
            rocks,
            n - 1,
            now,
        );
        lemma_row_debris(
            pieces.skip(p),
            dust.skip(d),
            shots[n - 1],
            rocks,
            rocks.len() as int,
            now,
        );
        assert forall|i: int| 0 <= i < pieces.len() implies (#[trigger] pieces[i]).wf()
            && !pieces[i].destroyed by {
            if i < p {
                assert(pieces[i] == pieces.take(p)[i]);
            } else {
                assert(pieces[i] == pieces.skip(p)[i - p]);
            }
        }
        assert forall|i: int| 0 <= i < dust.len() implies (#[trigger] dust[i]).wf()
            && !dust[i].expired && dust[i].creation_time == now by {
            if i < d {
                assert(dust[i] == dust.take(d)[i]);
            } else {
                assert(dust[i] == dust.skip(d)[i - d]);
            }
        }
    } else {
        let d = choose|d: int|
            #[trigger] dust_cut_at(dust, d) && pass_debris(
                pieces,
                dust.take(d),
                shots,
                passes,
                center,
                bounds,
                rocks,
                n - 1,
                now,
            ) && taker_dust(dust.skip(d), center, bounds[n - 1], now);
        lemma_pass_debris(pieces, dust.take(d), shots, passes, center, bounds, rocks, n - 1, now);
        assert forall|i: int| 0 <= i < dust.len() implies (#[trigger] dust[i]).wf()
            && !dust[i].expired && dust[i].creation_time == now by {
            if i < d {
                assert(dust[i] == dust.take(d)[i]);
            } else {
                assert(dust[i] == dust.skip(d)[i - d]);
                assert(dust.skip(d)[i - d].is_fresh(center->0, now));
            }
        }
    }
}

/// One projectile more that went on to the asteroids: what the pass had
/// left, with what its row leaves behind it.
proof fn lemma_pass_debris_row(
    pieces: Seq<Asteroid>,
    dust: Seq<Particle>,
    more_pieces: Seq<Asteroid>,
    more_dust: Seq<Particle>,
    shots: Seq<Projectile>,
    passes: Seq<bool>,
    center: Option<crate::vector::Vector2>,
    bounds: Seq<(int, int)>,
    rocks: Seq<Asteroid>,
    rocks_now: Seq<Asteroid>,
    n: int,
    now: u64,
)
    requires
        0 <= n < shots.len(),
        passes[n],
        same_but_flags(rocks, rocks_now),
        pass_debris(pieces, dust, shots, passes, center, bounds, rocks, n, now),
        row_debris(more_pieces, more_dust, shots[n], rocks_now, rocks_now.len() as int, now),
    ensures
        pass_debris(
            pieces + more_pieces,
            dust + more_dust,
            shots,
            passes,
            center,
            bounds,
            rocks,
            n + 1,
            now,
        ),
{
    lemma_row_debris_ignores_flags(
        more_pieces,
        more_dust,
        shots[n],
        rocks,
        rocks_now,
        rocks.len() as int,
        now,
    );
    let all_pieces = pieces + more_pieces;
    let all_dust = dust + more_dust;
    let p = pieces.len() as int;
    let d = dust.len() as int;
    assert(all_pieces.take(p) =~= pieces);
    assert(all_dust.take(d) =~= dust);
    assert(all_pieces.skip(p) =~= more_pieces);
    assert(all_dust.skip(d) =~= more_dust);
    assert(pass_debris(
        all_pieces.take(p),
        all_dust.take(d),
        shots,
        passes,
        center,
        bounds,
        rocks,
        n,
        now,
    ));
    assert(cut_at(all_pieces, all_dust, p, d));
}

/// One projectile more that was taken before the asteroids: what the pass
/// had left, with the particles thrown out where it was taken behind it.
proof fn lemma_pass_debris_taken(
    pieces: Seq<Asteroid>,
    dust: Seq<Particle>,
    more_pieces: Seq<Asteroid>,
    more_dust: Seq<Particle>,
    shots: Seq<Projectile>,
    passes: Seq<bool>,
    center: Option<crate::vector::Vector2>,
    bounds: Seq<(int, int)>,
    rocks: Seq<Asteroid>,
    n: int,
    now: u64,
)
    requires
        0 <= n < shots.len(),
        !passes[n],
        pass_debris(pieces, dust, shots, passes, center, bounds, rocks, n, now),
        more_pieces.len() == 0,
        taker_dust(more_dust, center, bounds[n], now),
    ensures
        pass_debris(
            pieces + more_pieces,
            dust + more_dust,
            shots,
            passes,
            center,
            bounds,
            rocks,
            n + 1,
            now,
        ),
{
    let all_dust = dust + more_dust;
    let d = dust.len() as int;
    assert(pieces + more_pieces =~= pieces);
    assert(all_dust.take(d) =~= dust);
    assert(all_dust.skip(d) =~= more_dust);
    assert(pass_debris(pieces, all_dust.take(d), shots, passes, center, bounds, rocks, n, now));
    assert(dust_cut_at(all_dust, d));
}

/// An asteroid has been hit after one projectile more where it had been
/// hit before or that projectile hits it.
pub proof fn lemma_struck_step(
    shots: Seq<Projectile>,
    passes: Seq<bool>,
    rock: Asteroid,
    n: int,
)
    requires
        0 <= n < shots.len(),
    ensures
        struck_by_pass(shots, passes, rock, n + 1) <==> struck_by_pass(shots, passes, rock, n) || (
        passes[n] && projectile_hits_asteroid(shots[n], rock)),
{
    if struck_by_pass(shots, passes, rock, n + 1) {
        let i = choose|i: int| i < n + 1 && #[trigger] reached(shots, passes, rock, i);
        if i < n {
            assert(struck_by_pass(shots, passes, rock, n));
        }
    }
    if struck_by_pass(shots, passes, rock, n) {
        let i = choose|i: int| i < n && #[trigger] reached(shots, passes, rock, i);
        assert(i < n + 1 && reached(shots, passes, rock, i));
    }
    if passes[n] && projectile_hits_asteroid(shots[n], rock) {
        assert(n < n + 1 && reached(shots, passes, rock, n));
    }
}

/// The alien takes the projectile: there is an alien, and the projectile
/// lies in its box.
pub open spec fn absorbs(alien: Option<Alien>, shot: Projectile) -> bool {
    alien matches Some(a) && projectile_hits_alien(shot, a)
}

/// How many of the first `n` projectiles the alien takes.
pub open spec fn absorbed_count(shots: Seq<Projectile>, alien: Option<Alien>, n: int) -> int
    decreases n,
{
    if n <= 0 {
        0
    } else {
        absorbed_count(shots, alien, n - 1) + if absorbs(alien, shots[n - 1]) {
            1int
        } else {
            0int
        }
    }
}

/// For each of the player's projectiles, whether it goes on to the
/// asteroids: it does unless the alien takes it.
pub open spec fn player_passes(shots: Seq<Projectile>, alien: Option<Alien>) -> Seq<bool> {
    Seq::new(shots.len(), |i: int| !absorbs(alien, shots[i]))
}

/// The alien after `k` hits: it loses a point of health with each until
/// none is left, and is expired from then on.
pub open spec fn hit_times(alien: Alien, k: int) -> Alien {
    Alien {
        health: if alien.health > k {
            (alien.health - k) as i32
        } else {
            0
        },
        expired: alien.expired || 0 < alien.health <= k,
        ..alien
    }
}

/// What there is of the alien after `k` hits.
pub open spec fn alien_after(alien: Option<Alien>, k: int) -> Option<Alien> {
    match alien {
        Some(a) => Some(hit_times(a, k)),
        None => None,
    }
}

/// There was an alien with health left, and `k` hits took the last of it.
pub open spec fn killed(alien: Option<Alien>, k: int) -> bool {
    alien matches Some(a) && 0 < a.health <= k
}

/// What `k` hits on the alien add to the score.
pub open spec fn kill_points(alien: Option<Alien>, k: int) -> int {
    if killed(alien, k) {
        ALIEN_POINTS as int
    } else {
        0
    }
}

/// For each of the player's projectiles, how few and how many particles
/// the alien throws out if it takes that projectile: those of a hit, and
/// those of the second burst too where it is the hit that destroys the
/// alien.
pub open spec fn alien_bounds(shots: Seq<Projectile>, alien: Option<Alien>) -> Seq<(int, int)> {
    Seq::new(
        shots.len(),
        |i: int|
            (
                alien_burst_min(hit_times(alien->0, absorbed_count(shots, alien, i))),
                alien_burst_max(hit_times(alien->0, absorbed_count(shots, alien, i))),
            ),
    )
}

/// The sounds of the first `n` of the player's projectiles, in their
/// order: a projectile that the alien takes sounds the hit, or the
/// explosion where it is the hit that destroys the alien; any other sounds
/// each asteroid that it hits.
pub open spec fn player_cues(
    shots: Seq<Projectile>,
    alien: Option<Alien>,
    rocks: Seq<Asteroid>,
    n: int,
) -> Seq<SoundEvent>
    decreases n,
{
    if n <= 0 {
        Seq::empty()
    } else if absorbs(alien, shots[n - 1]) {
        player_cues(shots, alien, rocks, n - 1).push(
            alien_hit_cue(hit_times(alien->0, absorbed_count(shots, alien, n - 1))),
        )
    } else {
        player_cues(shots, alien, rocks, n - 1) + row_cues(
            shots[n - 1],
            rocks,
            rocks.len() as int,
        )
    }
}

/// Where the alien is, if there is one.
pub open spec fn place_of(alien: Option<Alien>) -> Option<crate::vector::Vector2> {
    match alien {
        Some(a) => Some(a.position),
        None => None,
    }
}

/// What the player's projectiles leave behind, in their order: one that
/// goes on to the asteroids leaves the pieces and particles of each
/// asteroid that it hits; one that the alien takes leaves the particles
/// that the alien throws out.
pub open spec fn player_debris(
    shots: Seq<Projectile>,
    alien: Option<Alien>,
    rocks: Seq<Asteroid>,
    pieces: Seq<Asteroid>,
    dust: Seq<Particle>,
    now: u64,
) -> bool {
    pass_debris(
        pieces,
        dust,
        shots,
        player_passes(shots, alien),
        place_of(alien),
        alien_bounds(shots, alien),
        rocks,
        shots.len() as int,
        now,
    )
}

/// One of the player's projectiles against the alien and the asteroids.
/// The alien comes first: a projectile in its box is used up on it and goes
/// no farther. Any other projectile meets every asteroid.
pub fn resolve_player_projectile(
    rng: &mut ThreadRng,
    alien: &mut Option<Alien>,
    projectile: &mut Projectile,
    asteroids: &mut Vec<Asteroid>,
    score: &mut Score,
    sounds: &mut Sounds,
    now: u64,
) -> (out: (Vec<Asteroid>, Vec<Particle>))
    requires
        rocks_wf(old(asteroids)@),
        *old(alien) matches Some(a) ==> a.wf(),
    ensures
        *final(alien) matches Some(a) ==> a.wf(),
        rocks_wf(final(asteroids)@),
        final(sounds).same_playing(*old(sounds)),
        absorbs(*old(alien), *old(projectile)) ==> {
            &&& *final(projectile) == spent(*old(projectile), true)
            &&& *final(alien) == Some(old(alien)->0.hit())
            &&& final(asteroids)@ == old(asteroids)@
            &&& final(score).score == score_after_alien_hit(
                old(score).score as int,
                old(alien)->0,
            )
            &&& final(sounds).events@ == old(sounds).events@.push(alien_hit_cue(old(alien)->0))
            &&& out.0@.len() == 0
            &&& taker_dust(
                out.1@,
                place_of(*old(alien)),
                (alien_burst_min(old(alien)->0), alien_burst_max(old(alien)->0)),
                now,
            )
        },
        !absorbs(*old(alien), *old(projectile)) ==> {
            &&& *final(alien) == *old(alien)
            &&& final(asteroids)@ == struck(old(asteroids)@, *old(projectile))
            &&& *final(projectile) == spent(
                *old(projectile),
                row_hits(*old(projectile), old(asteroids)@, old(asteroids)@.len() as int) > 0,
            )
            &&& final(score).score == awarded(
                old(score).score as int,
                row_points(*old(projectile), old(asteroids)@, old(asteroids)@.len() as int),
            )
            &&& final(sounds).events@ == old(sounds).events@ + row_cues(
                *old(projectile),
                old(asteroids)@,
                old(asteroids)@.len() as int,
            )
            &&& row_debris(
                out.0@,
                out.1@,
                *old(projectile),
                old(asteroids)@,
                old(asteroids)@.len() as int,
                now,
            )
        },
{
    match alien {
        Some(target) => {
            if projectile_alien_hit(projectile, target) {
                let dust: Vec<Particle> = handle_projectile_alien_hit(
                    rng,
                    projectile,
                    target,
                    score,
                    sounds,
                    now,
                );
                return (Vec::new(), dust);
            }
        },
        None => {},
    }
    strike_asteroids(rng, projectile, asteroids, score, sounds, now)
}

/// The projectiles while the first `n` of them have been resolved and the
/// others have not been touched.
pub open spec fn shots_so_far(
    shots: Seq<Projectile>,
    passes: Seq<bool>,
    rocks: Seq<Asteroid>,
    n: int,
) -> Seq<Projectile> {
    Seq::new(
        shots.len(),
        |i: int|
            if i < n {
                spent(shots[i], !passes[i] || row_hits(shots[i], rocks, rocks.len() as int) > 0)
            } else {
                shots[i]
            },
    )
}

/// The asteroids after one projectile more.
proof fn lemma_rocks_step(
    rocks: Seq<Asteroid>,
    shots: Seq<Projectile>,
    passes: Seq<bool>,
    i: int,
    rocks_now: Seq<Asteroid>,
    rocks_next: Seq<Asteroid>,
)
    requires
        0 <= i < shots.len(),
        rocks_wf(rocks),
        rocks_now == pass_rocks(rocks, shots, passes, i),
        passes[i] ==> rocks_next == struck(rocks_now, shots[i]),
        !passes[i] ==> rocks_next == rocks_now,
    ensures
        rocks_next == pass_rocks(rocks, shots, passes, i + 1),
        same_but_flags(rocks, rocks_now),
        rocks_wf(rocks_next),
{
    assert forall|j: int| 0 <= j < rocks.len() implies #[trigger] rocks_next[j] == marked(
        rocks[j],
        struck_by_pass(shots, passes, rocks[j], i + 1),
    ) by {
        lemma_struck_step(shots, passes, rocks[j], i);
        assert(rocks_now[j] == marked(rocks[j], struck_by_pass(shots, passes, rocks[j], i)));
    }
    assert(rocks_next =~= pass_rocks(rocks, shots, passes, i + 1));
    assert forall|j: int| 0 <= j < rocks.len() implies #[trigger] rocks_now[j] == (Asteroid {
        destroyed: rocks_now[j].destroyed,
        ..rocks[j]
    }) by {
        assert(rocks_now[j] == marked(rocks[j], struck_by_pass(shots, passes, rocks[j], i)));
    }
    assert forall|j: int| 0 <= j < rocks_next.len() implies (#[trigger] rocks_next[j]).wf() by {
        assert(rocks[j].wf());
    }
}

/// The projectiles after one more of them has been resolved.
proof fn lemma_shots_step(
    shots: Seq<Projectile>,
    passes: Seq<bool>,
    rocks: Seq<Asteroid>,
    i: int,
    shots_now: Seq<Projectile>,
    shot: Projectile,
)
    requires
        0 <= i < shots.len(),
        shots_now == shots_so_far(shots, passes, rocks, i),
        shot == spent(shots[i], !passes[i] || row_hits(shots[i], rocks, rocks.len() as int) > 0),
    ensures
        shots_now.update(i, shot) == shots_so_far(shots, passes, rocks, i + 1),
{
    assert(shots_now.update(i, shot) =~= shots_so_far(shots, passes, rocks, i + 1));
}

/// The alien and the score after the alien has taken one projectile more.
proof fn lemma_alien_step(alien: Alien, taken: int, score: int, points: int)
    requires
        alien.wf(),
        0 <= taken,
        0 <= points,
        0 <= score <= u64::MAX,
    ensures
        hit_times(alien, taken).hit() == hit_times(alien, taken + 1),
        hit_times(alien, taken).wf(),
        hit_times(alien, taken).position == alien.position,
        score_after_alien_hit(
            awarded(score, points + kill_points(Some(alien), taken)),
            hit_times(alien, taken),
        ) == awarded(score, points + kill_points(Some(alien), taken + 1)),
{
    lemma_award_order(score, points + kill_points(Some(alien), taken), ALIEN_POINTS as int);
}

/// The player's projectiles against the alien and the asteroids. The alien
/// comes first: a projectile in its box is used up on it and goes no
/// farther. Every other projectile meets every asteroid.
pub fn handle_player_projectile_collisions(
    rng: &mut ThreadRng,
    alien: &mut Option<Alien>,
    player_projectiles: &mut Vec<Projectile>,
    asteroids: &mut Vec<Asteroid>,
    score: &mut Score,
    sounds: &mut Sounds,
    now: u64,
) -> (out: (Vec<Asteroid>, Vec<Particle>))
    requires
        rocks_wf(old(asteroids)@),
        *old(alien) matches Some(a) ==> a.wf(),
    ensures
        final(player_projectiles)@ == pass_shots(
            old(player_projectiles)@,
            player_passes(old(player_projectiles)@, *old(alien)),
            old(asteroids)@,
        ),
        final(asteroids)@ == pass_rocks(
            old(asteroids)@,
            old(player_projectiles)@,
            player_passes(old(player_projectiles)@, *old(alien)),
            old(player_projectiles)@.len() as int,
        ),
        rocks_wf(final(asteroids)@),
        *final(alien) == alien_after(
            *old(alien),
            absorbed_count(
                old(player_projectiles)@,
                *old(alien),
                old(player_projectiles)@.len() as int,
            ),
        ),
        *final(alien) matches Some(a) ==> a.wf(),
        final(score).score == awarded(
            old(score).score as int,
            pass_points(
                old(player_projectiles)@,
                player_passes(old(player_projectiles)@, *old(alien)),
                old(asteroids)@,
                old(player_projectiles)@.len() as int,
            ) + kill_points(
                *old(alien),
                absorbed_count(
                    old(player_projectiles)@,
                    *old(alien),
                    old(player_projectiles)@.len() as int,
                ),
            ),
        ),
        final(score).score >= old(score).score,
        final(sounds).events@ == old(sounds).events@ + player_cues(
            old(player_projectiles)@,
            *old(alien),
            old(asteroids)@,
            old(player_projectiles)@.len() as int,
        ),
        final(sounds).same_playing(*old(sounds)),
        player_debris(
            old(player_projectiles)@,
            *old(alien),
            old(asteroids)@,
            out.0@,
            out.1@,
            now,
        ),
{
    let ghost shots = player_projectiles@;
    let ghost rocks = asteroids@;
    let ghost alien_before = *alien;
    let ghost passes = player_passes(shots, alien_before);
    let ghost center = place_of(alien_before);
    let ghost bounds = alien_bounds(shots, alien_before);
    let ghost score_before: u64 = score.score;
    let ghost sounds_before = *sounds;
    let mut new_asteroids: Vec<Asteroid> = Vec::new();
    let mut new_particles: Vec<Particle> = Vec::new();
    let count: usize = player_projectiles.len();
    let mut i: usize = 0;
    proof {
        assert(asteroids@ =~= pass_rocks(rocks, shots, passes, 0));
        assert(player_projectiles@ =~= shots_so_far(shots, passes, rocks, 0));
        assert(sounds.events@ =~= sounds_before.events@ + player_cues(
            shots,
            alien_before,
            rocks,
            0,
        ));
    }
    while i < count
        invariant
            0 <= i <= count,
            count == shots.len(),
            passes == player_passes(shots, alien_before),
            center == place_of(alien_before),
            bounds == alien_bounds(shots, alien_before),
            rocks_wf(rocks),
            rocks_wf(asteroids@),
            alien_before matches Some(a) ==> a.wf(),
            player_projectiles@ == shots_so_far(shots, passes, rocks, i as int),
            asteroids@ == pass_rocks(rocks, shots, passes, i as int),
            0 <= absorbed_count(shots, alien_before, i as int),
            *alien == alien_after(alien_before, absorbed_count(shots, alien_before, i as int)),
            *alien matches Some(a) ==> a.wf(),
            0 <= pass_points(shots, passes, rocks, i as int),
            score.score == awarded(
                score_before as int,
                pass_points(shots, passes, rocks, i as int) + kill_points(
                    alien_before,
                    absorbed_count(shots, alien_before, i as int),
                ),
            ),
            sounds.events@ == sounds_before.events@ + player_cues(
                shots,
                alien_before,
                rocks,
                i as int,
            ),
            sounds.same_playing(sounds_before),
            pass_debris(
                new_asteroids@,
                new_particles@,
                shots,
                passes,
                center,
                bounds,
                rocks,
                i as int,
                now,
            ),
        decreases count - i,
    {
        let mut shot: Projectile = player_projectiles[i];
        let ghost taken = absorbed_count(shots, alien_before, i as int);
        let ghost points = pass_points(shots, passes, rocks, i as int);
        let ghost cues_before = player_cues(shots, alien_before, rocks, i as int);
        let ghost rocks_now = asteroids@;
        let ghost shots_now = player_projectiles@;
        let ghost pieces_before = new_asteroids@;
        let ghost dust_before = new_particles@;
        let ghost alien_now = *alien;
        assert(shot == shots[i as int]);
        let (mut pieces, mut dust) = resolve_player_projectile(
            rng,
            alien,
            &mut shot,
            asteroids,
            score,
            sounds,
            now,
        );
        proof {
            assert(absorbs(alien_now, shots[i as int]) == absorbs(alien_before, shots[i as int]));
            assert(passes[i as int] == !absorbs(alien_before, shots[i as int]));
            lemma_rocks_step(rocks, shots, passes, i as int, rocks_now, asteroids@);
            if passes[i as int] {
                lemma_row_ignores_flags(shots[i as int], rocks, rocks_now, rocks.len() as int);
                lemma_row_counts(shots[i as int], rocks, rocks.len() as int);
                lemma_award_order(
                    score_before as int,
                    points + kill_points(alien_before, taken),
                    row_points(shots[i as int], rocks, rocks.len() as int),
                );
                assert(sounds.events@ =~= sounds_before.events@ + (cues_before + row_cues(
                    shots[i as int],
                    rocks,
                    rocks.len() as int,
                )));
                lemma_pass_debris_row(
                    pieces_before,
                    dust_before,
                    pieces@,
                    dust@,
                    shots,
                    passes,
                    center,
                    bounds,
                    rocks,
                    rocks_now,
                    i as int,
                    now,
                );
            } else {
                lemma_alien_step(alien_before->0, taken, score_before as int, points);
                assert(sounds.events@ =~= sounds_before.events@ + cues_before.push(
                    alien_hit_cue(hit_times(alien_before->0, taken)),
                ));
                assert(bounds[i as int] == (
                    alien_burst_min(alien_now->0),
                    alien_burst_max(alien_now->0),
                ));
                lemma_pass_debris_taken(
                    pieces_before,
                    dust_before,
                    pieces@,
                    dust@,
                    shots,
                    passes,
                    center,
                    bounds,
                    rocks,
                    i as int,
                    now,
                );
            }
            lemma_shots_step(shots, passes, rocks, i as int, shots_now, shot);
        }
        new_asteroids.append(&mut pieces);
        new_particles.append(&mut dust);
        player_projectiles.set(i, shot);
        i = i + 1;
    }
    proof {
        assert(player_projectiles@ =~= pass_shots(shots, passes, rocks));
        crate::score::lemma_award_never_lowers(
            score_before as int,
            pass_points(shots, passes, rocks, count as int) + kill_points(
                alien_before,
                absorbed_count(shots, alien_before, count as int),
            ),
        );
    }
    (new_asteroids, new_particles)
}

/// The ship takes the projectile: it is not immune, and the projectile lies
/// in its collision box.
pub open spec fn ship_takes(ship: Ship, shot: Projectile) -> bool {
    !ship.immune && projectile_hits_ship(shot, ship)
}

/// The projectile at `i` is one that the ship, as it was before the pass,
/// would take.
pub open spec fn takes_at(shots: Seq<Projectile>, ship: Ship, i: int) -> bool {
    0 <= i < shots.len() && ship_takes(ship, shots[i])
}

/// One of the first `n` projectiles hit the ship.
pub open spec fn taken_before(shots: Seq<Projectile>, ship: Ship, n: int) -> bool {
    exists|i: int| i < n && #[trigger] takes_at(shots, ship, i)
}

/// For each of the alien's projectiles, whether it goes on to the
/// asteroids: it does unless it is the first that hits the ship. The hit
/// makes the ship immune, so the later ones pass it by.
pub open spec fn alien_passes(shots: Seq<Projectile>, ship: Ship) -> Seq<bool> {
    Seq::new(shots.len(), |i: int| !(takes_at(shots, ship, i) && !taken_before(shots, ship, i)))
}

/// The ship after the first `n` of the alien's projectiles: damaged once
/// if one of them hit it.
pub open spec fn ship_after(shots: Seq<Projectile>, ship: Ship, n: int, now: u64) -> Ship {
    if taken_before(shots, ship, n) {
        ship.damaged(now)
    } else {
        ship
    }
}

/// For each of the alien's projectiles, how few and how many particles the
/// ship throws out if that projectile hits it.
pub open spec fn ship_bounds(shots: Seq<Projectile>) -> Seq<(int, int)> {
    Seq::new(shots.len(), |i: int| (HIT_BURST_MIN as int, HIT_BURST_MAX as int))
}

/// What the alien's projectiles leave behind, in their order: one that
/// goes on to the asteroids leaves the pieces and particles of each
/// asteroid that it hits; the one that hits the ship leaves the particles
/// that the ship throws out.
pub open spec fn alien_debris(
    shots: Seq<Projectile>,
    ship: Ship,
    rocks: Seq<Asteroid>,
    pieces: Seq<Asteroid>,
    dust: Seq<Particle>,
    now: u64,
) -> bool {
    pass_debris(
        pieces,
        dust,
        shots,
        alien_passes(shots, ship),
        Some(ship.position),
        ship_bounds(shots),
        rocks,
        shots.len() as int,
        now,
    )
}

/// The particles of a crash: a burst where the ship is if there was one,
/// and none if there was not.
pub open spec fn crash_dust(
    dust: Seq<Particle>,
    crashed: bool,
    position: crate::vector::Vector2,
    now: u64,
) -> bool {
    if crashed {
        HIT_BURST_MIN <= dust.len() <= HIT_BURST_MAX && burst_at(dust, position, now)
    } else {
        dust.len() == 0
    }
}

/// The ship runs into an asteroid: it is not immune, and its box meets the
/// box of one of them.
pub open spec fn crashes(ship: Ship, rocks: Seq<Asteroid>) -> bool {
    !ship.immune && ship_hits_any(ship, rocks)
}

/// The ship runs into the alien: it is not immune, there is an alien, and
/// their boxes meet.
pub open spec fn rams(ship: Ship, alien: Option<Alien>) -> bool {
    !ship.immune && (alien matches Some(a) && ship_hits_alien(ship, a))
}

/// The sounds of the first `n` of the alien's projectiles, in their order:
/// the one that hits the ship sounds that hit, any other sounds each
/// asteroid that it hits.
pub open spec fn alien_shot_cues(
    shots: Seq<Projectile>,
    ship: Ship,
    rocks: Seq<Asteroid>,
    n: int,
) -> Seq<SoundEvent>
    decreases n,
{
    if n <= 0 {
        Seq::empty()
    } else if !alien_passes(shots, ship)[n - 1] {
        alien_shot_cues(shots, ship, rocks, n - 1).push(SoundEvent::PlayDetached(Sound::ShipHit))
    } else {
        alien_shot_cues(shots, ship, rocks, n - 1) + row_cues(
            shots[n - 1],
            rocks,
            rocks.len() as int,
        )
    }
}

/// The ship has been hit after one projectile more where it had been hit
/// before or would take that projectile.
pub proof fn lemma_taken_step(shots: Seq<Projectile>, ship: Ship, n: int)
    requires
        0 <= n < shots.len(),
    ensures
        taken_before(shots, ship, n + 1) <==> taken_before(shots, ship, n) || ship_takes(
            ship,
            shots[n],
        ),
        !taken_before(shots, ship, 0),
{
    if taken_before(shots, ship, n + 1) {
        let i = choose|i: int| i < n + 1 && #[trigger] takes_at(shots, ship, i);
        if i < n {
            assert(taken_before(shots, ship, n));
        }
    }
    if taken_before(shots, ship, n) {
        let i = choose|i: int| i < n && #[trigger] takes_at(shots, ship, i);
        assert(i < n + 1 && takes_at(shots, ship, i));
    }
    if ship_takes(ship, shots[n]) {
        assert(n < n + 1 && takes_at(shots, ship, n));
    }
}

/// One of the alien's projectiles against the ship and the asteroids. The
/// ship comes first: unless it is immune, a projectile in its box is used
/// up on it and goes no farther. Any other projectile meets every asteroid.
pub fn resolve_alien_projectile(
    rng: &mut ThreadRng,
    ship: &mut Ship,
    projectile: &mut Projectile,
    asteroids: &mut Vec<Asteroid>,
    score: &mut Score,
    sounds: &mut Sounds,
    now: u64,
) -> (out: (Vec<Asteroid>, Vec<Particle>))
    requires
        rocks_wf(old(asteroids)@),
        old(ship).wf(),
    ensures
        final(ship).wf(),
        rocks_wf(final(asteroids)@),
        final(sounds).same_playing(*old(sounds)),
        ship_takes(*old(ship), *old(projectile)) ==> {
            &&& *final(projectile) == spent(*old(projectile), true)
            &&& *final(ship) == old(ship).damaged(now)
            &&& final(asteroids)@ == old(asteroids)@
            &&& final(score).score == old(score).score
            &&& final(sounds).events@ == old(sounds).events@.push(
                SoundEvent::PlayDetached(Sound::ShipHit),
            )
            &&& out.0@.len() == 0
            &&& taker_dust(
                out.1@,
                Some(old(ship).position),
                (HIT_BURST_MIN as int, HIT_BURST_MAX as int),
                now,
            )
        },
        !ship_takes(*old(ship), *old(projectile)) ==> {
            &&& *final(ship) == *old(ship)
            &&& final(asteroids)@ == struck(old(asteroids)@, *old(projectile))
            &&& *final(projectile) == spent(
                *old(projectile),
                row_hits(*old(projectile), old(asteroids)@, old(asteroids)@.len() as int) > 0,
            )
            &&& final(score).score == awarded(
                old(score).score as int,
                row_points(*old(projectile), old(asteroids)@, old(asteroids)@.len() as int),
            )
            &&& final(sounds).events@ == old(sounds).events@ + row_cues(
                *old(projectile),
                old(asteroids)@,
                old(asteroids)@.len() as int,
            )
            &&& row_debris(
                out.0@,
                out.1@,
                *old(projectile),
                old(asteroids)@,
                old(asteroids)@.len() as int,
                now,
            )
        },
{
    if !ship.immune && alien_projectile_ship_hit(projectile, ship) {
        let dust: Vec<Particle> = handle_alien_projectile_ship_hit(
            rng,
            projectile,
            ship,
            sounds,
            now,
        );
        return (Vec::new(), dust);
    }
    strike_asteroids(rng, projectile, asteroids, score, sounds, now)
}

/// The alien's projectiles against the ship and the asteroids. The ship
/// comes first: the first projectile in its box, unless the ship is
/// immune, is used up on it and makes it immune. Every other projectile
/// meets every asteroid.
pub fn handle_alien_projectile_collisions(
    rng: &mut ThreadRng,
    ship: &mut Ship,
    alien_projectiles: &mut Vec<Projectile>,
    asteroids: &mut Vec<Asteroid>,
    score: &mut Score,
    sounds: &mut Sounds,
    now: u64,
) -> (out: (Vec<Asteroid>, Vec<Particle>))
    requires
        rocks_wf(old(asteroids)@),
        old(ship).wf(),
    ensures
        final(alien_projectiles)@ == pass_shots(
            old(alien_projectiles)@,
            alien_passes(old(alien_projectiles)@, *old(ship)),
            old(asteroids)@,
        ),
        final(asteroids)@ == pass_rocks(
            old(asteroids)@,
            old(alien_projectiles)@,
            alien_passes(old(alien_projectiles)@, *old(ship)),
            old(alien_projectiles)@.len() as int,
        ),
        rocks_wf(final(asteroids)@),
        *final(ship) == ship_after(
            old(alien_projectiles)@,
            *old(ship),
            old(alien_projectiles)@.len() as int,
            now,
        ),
        final(ship).wf(),
        final(score).score == awarded(
            old(score).score as int,
            pass_points(
                old(alien_projectiles)@,
                alien_passes(old(alien_projectiles)@, *old(ship)),
                old(asteroids)@,
                old(alien_projectiles)@.len() as int,
            ),
        ),
        final(score).score >= old(score).score,
        final(sounds).events@ == old(sounds).events@ + alien_shot_cues(
            old(alien_projectiles)@,
            *old(ship),
            old(asteroids)@,
            old(alien_projectiles)@.len() as int,
        ),
        final(sounds).same_playing(*old(sounds)),
        alien_debris(
            old(alien_projectiles)@,
            *old(ship),
            old(asteroids)@,
            out.0@,
            out.1@,
            now,
        ),
{
    let ghost shots = alien_projectiles@;
    let ghost rocks = asteroids@;
    let ghost ship_before = *ship;
    let ghost passes = alien_passes(shots, ship_before);
    let ghost center = Some(ship_before.position);
    let ghost bounds = ship_bounds(shots);
    let ghost score_before: u64 = score.score;
    let ghost sounds_before = *sounds;
    let mut new_asteroids: Vec<Asteroid> = Vec::new();
    let mut new_particles: Vec<Particle> = Vec::new();
    let count: usize = alien_projectiles.len();
    let mut i: usize = 0;
    proof {
        assert(asteroids@ =~= pass_rocks(rocks, shots, passes, 0));
        assert(alien_projectiles@ =~= shots_so_far(shots, passes, rocks, 0));
        assert(sounds.events@ =~= sounds_before.events@ + alien_shot_cues(
            shots,
            ship_before,
            rocks,
            0,
        ));
    }
    while i < count
        invariant
            0 <= i <= count,
            count == shots.len(),
            passes == alien_passes(shots, ship_before),
            center == Some(ship_before.position),
            bounds == ship_bounds(shots),
            rocks_wf(rocks),
            rocks_wf(asteroids@),
            ship_before.wf(),
            ship.wf(),
            alien_projectiles@ == shots_so_far(shots, passes, rocks, i as int),
            asteroids@ == pass_rocks(rocks, shots, passes, i as int),
            *ship == ship_after(shots, ship_before, i as int, now),
            0 <= pass_points(shots, passes, rocks, i as int),
            score.score == awarded(
                score_before as int,
                pass_points(shots, passes, rocks, i as int),
            ),
            sounds.events@ == sounds_before.events@ + alien_shot_cues(
                shots,
                ship_before,
                rocks,
                i as int,
            ),
            sounds.same_playing(sounds_before),
            pass_debris(
                new_asteroids@,
                new_particles@,
                shots,
                passes,
                center,
                bounds,
                rocks,
                i as int,
                now,
            ),
        decreases count - i,
    {
        let mut shot: Projectile = alien_projectiles[i];
        let ghost points = pass_points(shots, passes, rocks, i as int);
        let ghost cues_before = alien_shot_cues(shots, ship_before, rocks, i as int);
        let ghost rocks_now = asteroids@;
        let ghost shots_now = alien_projectiles@;
        let ghost pieces_before = new_asteroids@;
        let ghost dust_before = new_particles@;
        let ghost ship_now = *ship;
        assert(shot == shots[i as int]);
        let (mut pieces, mut dust) = resolve_alien_projectile(
            rng,
            ship,
            &mut shot,
            asteroids,
            score,
            sounds,
            now,
        );
        proof {
            lemma_taken_step(shots, ship_before, i as int);
            assert(takes_at(shots, ship_before, i as int) == ship_takes(
                ship_before,
                shots[i as int],
            ));
            assert(passes[i as int] == !ship_takes(ship_now, shots[i as int]));
            lemma_rocks_step(rocks, shots, passes, i as int, rocks_now, asteroids@);
            if passes[i as int] {
                lemma_row_ignores_flags(shots[i as int], rocks, rocks_now, rocks.len() as int);
                lemma_row_counts(shots[i as int], rocks, rocks.len() as int);
                lemma_award_order(
                    score_before as int,
                    points,
                    row_points(shots[i as int], rocks, rocks.len() as int),
                );
                assert(sounds.events@ =~= sounds_before.events@ + (cues_before + row_cues(
                    shots[i as int],
                    rocks,
                    rocks.len() as int,
                )));
                lemma_pass_debris_row(
                    pieces_before,
                    dust_before,
                    pieces@,
                    dust@,
                    shots,
                    passes,
                    center,
                    bounds,
                    rocks,
                    rocks_now,
                    i as int,
                    now,
                );
            } else {
                assert(sounds.events@ =~= sounds_before.events@ + cues_before.push(
                    SoundEvent::PlayDetached(Sound::ShipHit),
                ));
                lemma_pass_debris_taken(
                    pieces_before,
                    dust_before,
                    pieces@,
                    dust@,
                    shots,
                    passes,
                    center,
                    bounds,
                    rocks,
                    i as int,
                    now,
                );
            }
            lemma_shots_step(shots, passes, rocks, i as int, shots_now, shot);
        }
        new_asteroids.append(&mut pieces);
        new_particles.append(&mut dust);
        alien_projectiles.set(i, shot);
        i = i + 1;
    }
    proof {
        assert(alien_projectiles@ =~= pass_shots(shots, passes, rocks));
        crate::score::lemma_award_never_lowers(
            score_before as int,
            pass_points(shots, passes, rocks, count as int),
        );
    }
    (new_asteroids, new_particles)
}

/// The ship runs into one of the asteroids.
pub open spec fn ship_hits_any(ship: Ship, rocks: Seq<Asteroid>) -> bool {
    exists|j: int| 0 <= j < rocks.len() && ship_hits_asteroid(ship, #[trigger] rocks[j])
}

/// The ship against every asteroid. Nothing is tested while the ship is
/// immune. Otherwise the ship is damaged once where it runs into an
/// asteroid, however many it runs into at the same time.
pub fn handle_ship_asteroid_collisions(
    rng: &mut ThreadRng,
    ship: &mut Ship,
    asteroids: &Vec<Asteroid>,
    sounds: &mut Sounds,
    now: u64,
) -> (particles: Option<Vec<Particle>>)
    requires
        old(ship).wf(),
        rocks_wf(asteroids@),
    ensures
        final(ship).wf(),
        particles is None <==> old(ship).immune,
        particles matches Some(burst) ==> crash_dust(
            burst@,
            crashes(*old(ship), asteroids@),
            old(ship).position,
            now,
        ),
        if crashes(*old(ship), asteroids@) {
            &&& *final(ship) == old(ship).damaged(now)
            &&& final(sounds).queued_one(
                *old(sounds),
                SoundEvent::PlayDetached(Sound::ShipCollision),
            )
        } else {
            &&& *final(ship) == *old(ship)
            &&& final(sounds).unchanged(*old(sounds))
        },
{
    if ship.immune {
        return None;
    }
    let mut collided: bool = false;
    let mut j: usize = 0;
    while j < asteroids.len()
        invariant
            0 <= j <= asteroids@.len(),
            rocks_wf(asteroids@),
            collided <==> exists|k: int|
                0 <= k < j && ship_hits_asteroid(*ship, #[trigger] asteroids@[k]),
        decreases asteroids@.len() - j,
    {
        if ship_asteroid_collision(ship, &asteroids[j]) {
            collided = true;
        }
        j = j + 1;
    }
    if collided {
        Some(handle_ship_collision(rng, ship, sounds, now))
    } else {
        Some(Vec::new())
    }
}

/// The ship against the alien. Nothing is tested while the ship is immune
/// or there is no alien. Where they meet, each takes one hit.
pub fn handle_ship_alien_collisions(
    rng: &mut ThreadRng,
    ship: &mut Ship,
    alien: &mut Option<Alien>,
    score: &mut Score,
    sounds: &mut Sounds,
    now: u64,
) -> (particles: Option<Vec<Particle>>)
    requires
        old(ship).wf(),
        *old(alien) matches Some(a) ==> a.wf(),
    ensures
        final(ship).wf(),
        *final(alien) matches Some(a) ==> a.wf(),
        final(score).score >= old(score).score,
        particles is None <==> old(ship).immune || *old(alien) is None,
        particles matches Some(burst) ==> crash_dust(
            burst@,
            rams(*old(ship), *old(alien)),
            old(ship).position,
            now,
        ),
        if rams(*old(ship), *old(alien)) {
            &&& *final(ship) == old(ship).damaged(now)
            &&& *final(alien) == Some(old(alien)->0.hit())
            &&& final(score).score == score_after_alien_hit(
                old(score).score as int,
                old(alien)->0,
            )
            &&& final(sounds).events@ == old(sounds).events@.push(
                alien_hit_cue(old(alien)->0),
            ).push(SoundEvent::PlayDetached(Sound::ShipCollision))
            &&& final(sounds).same_playing(*old(sounds))
        } else {
            &&& *final(ship) == *old(ship)
            &&& *final(alien) == *old(alien)
            &&& final(score).score == old(score).score
            &&& final(sounds).unchanged(*old(sounds))
        },
{
    if ship.immune {
        return None;
    }
    match alien {
        Some(target) => {
            let mut new_particles: Vec<Particle> = Vec::new();
            if ship_alien_collision(ship, target) {
                let destroyed: bool = target.take_hit();
                if destroyed {
                    score.update_score_alien();
                    sounds.play_alien_explosion_sound();
                } else {
                    sounds.play_alien_hit_sound();
                }
                new_particles = handle_ship_collision(rng, ship, sounds, now);
            }
            Some(new_particles)
        },
        None => None,
    }
}

} // verus!
