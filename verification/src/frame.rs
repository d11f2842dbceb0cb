//! One frame of a running session, step by step.

use rand::rngs::ThreadRng;
use vstd::prelude::*;
use crate::alien::Alien;
use crate::arena::Arena;
use crate::asteroid::Asteroid;
use crate::clock::{elapsed, elapsed_ms, frame_delta, frame_length};
use crate::collision::{
    absorbed_count,
    alien_after,
    alien_bounds,
    alien_debris,
    alien_hit_cue,
    alien_passes,
    alien_shot_cues,
    all_new_dust,
    all_new_rocks,
    crash_dust,
    crashes,
    handle_alien_projectile_collisions,
    handle_player_projectile_collisions,
    handle_ship_alien_collisions,
    handle_ship_asteroid_collisions,
    kill_points,
    lemma_pass_debris,
    pass_points,
    pass_rocks,
    pass_shots,
    place_of,
    player_cues,
    player_debris,
    player_passes,
    rams,
    rocks_wf,
    score_after_alien_hit,
    ship_after,
    ship_bounds,
    shots_wf,
};
use crate::game::{
    all_flying,
    all_glowing,
    all_intact,
    dust_wf,
    is_arriving,
    Game,
    HeldKeys,
    SessionState,
    ALIEN_SPAWN_COOLDOWN_MS,
    ALIEN_SPAWN_ROLLS,
    ASTEROID_CEILING,
    ASTEROID_FLOOR,
    ASTEROID_RESPAWN_MS,
};
use crate::particle::Particle;
use crate::projectile::Projectile;
use crate::random::roll_ratio;
use crate::score::awarded;
use crate::ship::{turned, RotationDirection, Ship};
use crate::sounds::{Sound, SoundEvent, Sounds};
use crate::vector::Vector2;

verus! {

/// The projectiles after a frame of `dt` milliseconds: each has flown on
/// and is expired if that took it out of the arena.
pub open spec fn flown(shots: Seq<Projectile>, arena: Arena, dt: int) -> Seq<Projectile> {
    Seq::new(shots.len(), |i: int| shots[i].moved(dt).bounded(arena))
}

/// The asteroids after a frame of `dt` milliseconds.
pub open spec fn drifted(rocks: Seq<Asteroid>, arena: Arena, dt: int) -> Seq<Asteroid> {
    Seq::new(rocks.len(), |i: int| rocks[i].moved(arena, dt))
}

/// The particles after a frame of `dt` milliseconds that ends at `now`.
pub open spec fn scattered(dust: Seq<Particle>, dt: int, now: u64) -> Seq<Particle> {
    Seq::new(dust.len(), |i: int| dust[i].moved(dt).aged(now))
}

/// The test that a projectile passes to be kept.
pub open spec fn is_flying() -> spec_fn(Projectile) -> bool {
    |p: Projectile| !p.expired
}

/// The test that an asteroid passes to be kept.
pub open spec fn is_intact() -> spec_fn(Asteroid) -> bool {
    |a: Asteroid| !a.destroyed
}

/// The test that a particle passes to be kept.
pub open spec fn is_glowing() -> spec_fn(Particle) -> bool {
    |p: Particle| !p.expired
}


/// Moves every projectile for `dt` milliseconds and expires those that
/// have left the arena.
pub fn advance_projectiles(projectiles: &mut Vec<Projectile>, arena: &Arena, dt: u32)
    requires
        shots_wf(old(projectiles)@),
    ensures
        final(projectiles)@ == flown(old(projectiles)@, *arena, dt as int),
        shots_wf(final(projectiles)@),
{
    let ghost shots = projectiles@;
    let count: usize = projectiles.len();
    let mut i: usize = 0;
    while i < count
        invariant
            0 <= i <= count,
            count == shots.len(),
            projectiles@.len() == count,
            shots_wf(shots),
            forall|k: int|
                0 <= k < i ==> #[trigger] projectiles@[k] == shots[k].moved(dt as int).bounded(
                    *arena,
                ),
            forall|k: int| i <= k < count ==> #[trigger] projectiles@[k] == shots[k],
        decreases count - i,
    {
        let mut shot: Projectile = projectiles[i];
        shot.move_forward(dt);
        shot.set_out_of_bounds(arena);
        projectiles.set(i, shot);
        i = i + 1;
    }
    proof {
        assert(projectiles@ =~= flown(shots, *arena, dt as int));
        assert forall|k: int| 0 <= k < projectiles@.len() implies (#[trigger] projectiles@[k]).wf() by {
            assert(shots[k].wf());
        }
    }
}

/// Moves every asteroid for `dt` milliseconds and wraps it.
pub fn advance_asteroids(asteroids: &mut Vec<Asteroid>, arena: &Arena, dt: u32)
    requires
        rocks_wf(old(asteroids)@),
        arena.wf(),
    ensures
        final(asteroids)@ == drifted(old(asteroids)@, *arena, dt as int),
        rocks_wf(final(asteroids)@),
{
    let ghost rocks = asteroids@;
    let count: usize = asteroids.len();
    let mut i: usize = 0;
    while i < count
        invariant
            0 <= i <= count,
            count == rocks.len(),
            asteroids@.len() == count,
            rocks_wf(rocks),
            arena.wf(),
            forall|k: int| 0 <= k < i ==> #[trigger] asteroids@[k] == rocks[k].moved(*arena, dt as int),
            forall|k: int| 0 <= k < i ==> (#[trigger] asteroids@[k]).wf(),
            forall|k: int| i <= k < count ==> #[trigger] asteroids@[k] == rocks[k],
        decreases count - i,
    {
        let mut rock: Asteroid = asteroids[i];
        rock.move_forward(arena, dt);
        asteroids.set(i, rock);
        i = i + 1;
    }
    proof {
        assert(asteroids@ =~= drifted(rocks, *arena, dt as int));
    }
}

/// Moves every particle for `dt` milliseconds and expires those that have
/// lasted longer than their time at `now`.
pub fn advance_particles(particles: &mut Vec<Particle>, dt: u32, now: u64)
    requires
        dust_wf(old(particles)@),
    ensures
        final(particles)@ == scattered(old(particles)@, dt as int, now),
        dust_wf(final(particles)@),
{
    let ghost dust = particles@;
    let count: usize = particles.len();
    let mut i: usize = 0;
    while i < count
        invariant
            0 <= i <= count,
            count == dust.len(),
            particles@.len() == count,
            dust_wf(dust),
            forall|k: int|
                0 <= k < i ==> #[trigger] particles@[k] == dust[k].moved(dt as int).aged(now),
            forall|k: int| 0 <= k < i ==> (#[trigger] particles@[k]).wf(),
            forall|k: int| i <= k < count ==> #[trigger] particles@[k] == dust[k],
        decreases count - i,
    {
        let mut particle: Particle = particles[i];
        particle.move_forward(dt);
        particle.check_expiration(now);
        particles.set(i, particle);
        i = i + 1;
    }
    proof {
        assert(particles@ =~= scattered(dust, dt as int, now));
    }
}

/// Keeps the projectiles that are not expired, in their order.
pub fn retain_flying(projectiles: &mut Vec<Projectile>)
    ensures
        final(projectiles)@ == old(projectiles)@.filter(is_flying()),
        all_flying(final(projectiles)@),
        shots_wf(old(projectiles)@) ==> shots_wf(final(projectiles)@),
{
    let ghost shots = projectiles@;
    let mut kept: Vec<Projectile> = Vec::new();
    let count: usize = projectiles.len();
    let mut i: usize = 0;
    proof {
        assert(shots.take(0) =~= Seq::<Projectile>::empty());
        reveal_with_fuel(Seq::filter, 1);
    }
    while i < count
        invariant
            0 <= i <= count,
            count == shots.len(),
            projectiles@ == shots,
            kept@ == shots.take(i as int).filter(is_flying()),
            all_flying(kept@),
            shots_wf(shots) ==> shots_wf(kept@),
        decreases count - i,
    {
        let shot: Projectile = projectiles[i];
        proof {
            assert(shots.take(i + 1) =~= shots.take(i as int).push(shot));
            Seq::lemma_filter_push(shots.take(i as int), shot, is_flying());
        }
        if !shot.expired {
            kept.push(shot);
        }
        i = i + 1;
    }
    proof {
        assert(shots.take(count as int) =~= shots);
    }
    *projectiles = kept;
}

/// Keeps the asteroids that are not destroyed, in their order.
pub fn retain_intact(asteroids: &mut Vec<Asteroid>)
    ensures
        final(asteroids)@ == old(asteroids)@.filter(is_intact()),
        all_intact(final(asteroids)@),
        rocks_wf(old(asteroids)@) ==> rocks_wf(final(asteroids)@),
{
    let ghost rocks = asteroids@;
    let mut kept: Vec<Asteroid> = Vec::new();
    let count: usize = asteroids.len();
    let mut i: usize = 0;
    proof {
        assert(rocks.take(0) =~= Seq::<Asteroid>::empty());
        reveal_with_fuel(Seq::filter, 1);
    }
    while i < count
        invariant
            0 <= i <= count,
            count == rocks.len(),
            asteroids@ == rocks,
            kept@ == rocks.take(i as int).filter(is_intact()),
            all_intact(kept@),
            rocks_wf(rocks) ==> rocks_wf(kept@),
        decreases count - i,
    {
        let rock: Asteroid = asteroids[i];
        proof {
            assert(rocks.take(i + 1) =~= rocks.take(i as int).push(rock));
            Seq::lemma_filter_push(rocks.take(i as int), rock, is_intact());
        }
        if !rock.destroyed {
            kept.push(rock);
        }
        i = i + 1;
    }
    proof {
        assert(rocks.take(count as int) =~= rocks);
    }
    *asteroids = kept;
}

/// Keeps the particles that are not expired, in their order.
pub fn retain_glowing(particles: &mut Vec<Particle>)
    ensures
        final(particles)@ == old(particles)@.filter(is_glowing()),
        all_glowing(final(particles)@),
        dust_wf(old(particles)@) ==> dust_wf(final(particles)@),
{
    let ghost dust = particles@;
    let mut kept: Vec<Particle> = Vec::new();
    let count: usize = particles.len();
    let mut i: usize = 0;
    proof {
        assert(dust.take(0) =~= Seq::<Particle>::empty());
        reveal_with_fuel(Seq::filter, 1);
    }
    while i < count
        invariant
            0 <= i <= count,
            count == dust.len(),
            particles@ == dust,
            kept@ == dust.take(i as int).filter(is_glowing()),
            all_glowing(kept@),
            dust_wf(dust) ==> dust_wf(kept@),
        decreases count - i,
    {
        let particle: Particle = particles[i];
        proof {
            assert(dust.take(i + 1) =~= dust.take(i as int).push(particle));
            Seq::lemma_filter_push(dust.take(i as int), particle, is_glowing());
        }
        if !particle.expired {
            kept.push(particle);
        }
        i = i + 1;
    }
    proof {
        assert(dust.take(count as int) =~= dust);
    }
    *particles = kept;
}

/// The ship after the keys that are held have acted on it for `dt`
/// milliseconds: thrust first, then the turn. Left and right held together
/// turn nothing. `heading` is the direction of the angle after the turn.
pub open spec fn steered(ship: Ship, held: HeldKeys, dt: int, heading: Vector2) -> Ship {
    let pushed = if held.up {
        ship.thrusted(dt)
    } else {
        ship
    };
    if held.left && !held.right {
        pushed.rotated(RotationDirection::LEFT, dt, heading)
    } else if held.right && !held.left {
        pushed.rotated(RotationDirection::RIGHT, dt, heading)
    } else {
        pushed
    }
}

/// The angle that the ship has after the keys that are held have acted on
/// it for `dt` milliseconds.
pub open spec fn steered_angle(rotation: int, held: HeldKeys, dt: int) -> int {
    if held.left && !held.right {
        turned(rotation, RotationDirection::LEFT, dt)
    } else if held.right && !held.left {
        turned(rotation, RotationDirection::RIGHT, dt)
    } else {
        rotation
    }
}

/// The ship after the part of a frame that moves it: carried by its
/// thrust, slowed by friction unless thrust is held, its immunity ended
/// where that is due, and its collision box put around it.
pub open spec fn flown_ship(ship: Ship, arena: Arena, thrust_held: bool, dt: int, now: u64) -> Ship {
    let moved = ship.moved(arena, dt);
    let slowed = if thrust_held {
        moved
    } else {
        moved.coasted(dt)
    };
    slowed.rested(now).boxed()
}

/// The sounds that stop when the alien goes: those of its music and its
/// warning that play.
pub open spec fn alien_stop_cues(sounds: Sounds) -> Seq<SoundEvent> {
    let music = if sounds.alien_music_playing {
        seq![SoundEvent::Stop(Sound::AlienMusic)]
    } else {
        Seq::empty()
    };
    if sounds.alien_warning_playing {
        music.push(SoundEvent::Stop(Sound::AlienWarning))
    } else {
        music
    }
}

/// The alien after a frame: the rolls have changed its heading, it has
/// moved for `dt` milliseconds, and it aims at `target`.
pub open spec fn roamed(
    alien: Alien,
    arena: Arena,
    dt: int,
    target: Vector2,
    roll_x: int,
    roll_y: int,
) -> Alien {
    let moved = alien.steered(roll_x, roll_y).moved(arena, dt);
    Alien { aim: moved.position.heading_to(target), ..moved }
}

/// The projectiles with the one that was fired, if one was, behind them.
pub open spec fn with_shot(shots: Seq<Projectile>, shot: Option<Projectile>) -> Seq<Projectile> {
    match shot {
        Some(p) => shots.push(p),
        None => shots,
    }
}

/// The queued sounds with that of the alien's shot, if it fired, behind
/// them.
pub open spec fn with_shot_cue(events: Seq<SoundEvent>, shot: Option<Projectile>) -> Seq<
    SoundEvent,
> {
    match shot {
        Some(_) => events.push(SoundEvent::PlayDetached(Sound::AlienShoot)),
        None => events,
    }
}

/// What a frame does with an alien that is there, when the rolls for its
/// heading and its shot came out as given: it roams, and where it fires,
/// its projectile joins the alien's projectiles before they fly on.
pub open spec fn alien_turn(
    before: Game,
    after: Game,
    alien: Alien,
    dt: int,
    roll_x: int,
    roll_y: int,
    rolled: bool,
) -> bool {
    let roaming = roamed(alien, before.arena, dt, after.ship.position, roll_x, roll_y);
    &&& 0 <= roll_x < crate::alien::SIDEWAYS_ROLLS
    &&& 0 <= roll_y < crate::alien::UPWARD_ROLLS
    &&& after.alien == Some(roaming)
    &&& after.alien_projectiles@ == flown(
        with_shot(before.alien_projectiles@, roaming.fires(rolled)),
        before.arena,
        dt,
    )
    &&& after.sounds.events@ == with_shot_cue(before.sounds.events@, roaming.fires(rolled))
    &&& after.sounds.same_playing(before.sounds)
    &&& after.spawn_alien == before.spawn_alien
}

/// What a frame does while there is no alien: where the roll for one had
/// come out, an alien enters from the left or from the right with its music
/// and its warning, and the roll is used up.
pub open spec fn alien_entry(before: Game, after: Game, dt: int, now: u64) -> bool {
    &&& after.alien_projectiles@ == flown(before.alien_projectiles@, before.arena, dt)
    &&& after.sounds.thrust_playing == before.sounds.thrust_playing
    &&& !after.spawn_alien
    &&& if before.spawn_alien {
        &&& (after.alien == Some(Alien::entering(before.arena, true, now)) || after.alien == Some(
            Alien::entering(before.arena, false, now),
        ))
        &&& after.sounds.events@ == before.sounds.events@.push(
            SoundEvent::Play(Sound::AlienMusic),
        ).push(SoundEvent::Play(Sound::AlienWarning))
        &&& after.sounds.alien_music_playing
        &&& after.sounds.alien_warning_playing
    } else {
        &&& after.alien is None
        &&& after.sounds.events@ == before.sounds.events@
        &&& after.sounds.same_playing(before.sounds)
    }
}

/// What the alien's part of a frame does with an alien that is there, when
/// the rolls for its heading and its shot came out as given: it roams and
/// aims at the ship, and where it fires, its projectile joins the alien's
/// projectiles and sounds.
pub open spec fn alien_acts(
    before: Game,
    after: Game,
    alien: Alien,
    dt: int,
    roll_x: int,
    roll_y: int,
    rolled: bool,
) -> bool {
    let roaming = roamed(alien, before.arena, dt, before.ship.position, roll_x, roll_y);
    &&& 0 <= roll_x < crate::alien::SIDEWAYS_ROLLS
    &&& 0 <= roll_y < crate::alien::UPWARD_ROLLS
    &&& after.alien == Some(roaming)
    &&& after.alien_projectiles@ == with_shot(before.alien_projectiles@, roaming.fires(rolled))
    &&& after.sounds.events@ == with_shot_cue(before.sounds.events@, roaming.fires(rolled))
    &&& after.sounds.same_playing(before.sounds)
    &&& after.spawn_alien == before.spawn_alien
}

/// What the alien's part of a frame does while there is no alien: where
/// the roll for one had come out, an alien enters from the left or from the
/// right with its music and its warning, and the roll is used up.
pub open spec fn alien_enters(before: Game, after: Game, now: u64) -> bool {
    &&& after.alien_projectiles@ == before.alien_projectiles@
    &&& after.sounds.thrust_playing == before.sounds.thrust_playing
    &&& !after.spawn_alien
    &&& if before.spawn_alien {
        &&& (after.alien == Some(Alien::entering(before.arena, true, now)) || after.alien == Some(
            Alien::entering(before.arena, false, now),
        ))
        &&& after.sounds.events@ == before.sounds.events@.push(
            SoundEvent::Play(Sound::AlienMusic),
        ).push(SoundEvent::Play(Sound::AlienWarning))
        &&& after.sounds.alien_music_playing
        &&& after.sounds.alien_warning_playing
    } else {
        &&& after.alien is None
        &&& after.sounds.events@ == before.sounds.events@
        &&& after.sounds.same_playing(before.sounds)
    }
}

/// Everything but the alien, its projectiles, the roll for an alien and
/// the sounds is the same in both.
pub open spec fn same_but_alien(before: Game, after: Game) -> bool {
    &&& after.arena == before.arena
    &&& after.ship == before.ship
    &&& after.asteroids == before.asteroids
    &&& after.player_projectiles == before.player_projectiles
    &&& after.particles == before.particles
    &&& after.score == before.score
    &&& after.input_set == before.input_set
    &&& after.last_update == before.last_update
    &&& after.last_asteroid_instant == before.last_asteroid_instant
    &&& after.last_alien_spawn_check_instant == before.last_alien_spawn_check_instant
    &&& after.state == before.state
}

/// The score, the keys, the timers and where the session stands are the
/// same in both.
pub open spec fn same_session(before: Game, after: Game) -> bool {
    &&& after.arena == before.arena
    &&& after.score == before.score
    &&& after.input_set == before.input_set
    &&& after.last_update == before.last_update
    &&& after.last_asteroid_instant == before.last_asteroid_instant
    &&& after.last_alien_spawn_check_instant == before.last_alien_spawn_check_instant
    &&& after.state == before.state
}

/// The ship after it has been tested against the asteroids: damaged where
/// it is not immune and runs into one.
pub open spec fn ship_after_rocks(ship: Ship, rocks: Seq<Asteroid>, now: u64) -> Ship {
    if crashes(ship, rocks) {
        ship.damaged(now)
    } else {
        ship
    }
}

/// What the collisions of one frame make of a game, in their order: the
/// player's projectiles against the alien and the asteroids, the alien's
/// projectiles against the ship and the asteroids, the ship against the
/// asteroids, and the ship against the alien.
pub open spec fn collisions_resolved(before: Game, after: Game, now: u64) -> bool {
    let player_shots = before.player_projectiles@;
    let alien_shots = before.alien_projectiles@;
    let player_pass = player_passes(player_shots, before.alien);
    let alien_pass = alien_passes(alien_shots, before.ship);
    let taken = absorbed_count(player_shots, before.alien, player_shots.len() as int);
    let rocks = pass_rocks(
        before.asteroids@,
        player_shots,
        player_pass,
        player_shots.len() as int,
    );
    let alien = alien_after(before.alien, taken);
    let score = awarded(
        awarded(
            before.score.score as int,
            pass_points(player_shots, player_pass, before.asteroids@, player_shots.len() as int)
                + kill_points(before.alien, taken),
        ),
        pass_points(alien_shots, alien_pass, rocks, alien_shots.len() as int),
    );
    let shot_ship = ship_after(alien_shots, before.ship, alien_shots.len() as int, now);
    let ship = ship_after_rocks(shot_ship, after.asteroids@, now);
    &&& after.player_projectiles@ == pass_shots(player_shots, player_pass, before.asteroids@)
    &&& after.alien_projectiles@ == pass_shots(alien_shots, alien_pass, rocks)
    &&& after.asteroids@ == pass_rocks(rocks, alien_shots, alien_pass, alien_shots.len() as int)
    &&& if rams(ship, alien) {
        &&& after.ship == ship.damaged(now)
        &&& after.alien == Some(alien->0.hit())
        &&& after.score.score == score_after_alien_hit(score, alien->0)
    } else {
        &&& after.ship == ship
        &&& after.alien == alien
        &&& after.score.score == score
    }
}

/// The sounds that the collisions of one frame queue, in their order.
pub open spec fn collision_cues(before: Game, after: Game, now: u64) -> Seq<SoundEvent> {
    let player_shots = before.player_projectiles@;
    let alien_shots = before.alien_projectiles@;
    let taken = absorbed_count(player_shots, before.alien, player_shots.len() as int);
    let rocks = pass_rocks(
        before.asteroids@,
        player_shots,
        player_passes(player_shots, before.alien),
        player_shots.len() as int,
    );
    let alien = alien_after(before.alien, taken);
    let shot_ship = ship_after(alien_shots, before.ship, alien_shots.len() as int, now);
    let ship = ship_after_rocks(shot_ship, after.asteroids@, now);
    let shots = player_cues(player_shots, before.alien, before.asteroids@, player_shots.len() as int)
        + alien_shot_cues(alien_shots, before.ship, rocks, alien_shots.len() as int);
    let crash = if crashes(shot_ship, after.asteroids@) {
        shots.push(SoundEvent::PlayDetached(Sound::ShipCollision))
    } else {
        shots
    };
    if rams(ship, alien) {
        crash.push(alien_hit_cue(alien->0)).push(SoundEvent::PlayDetached(Sound::ShipCollision))
    } else {
        crash
    }
}

/// What the roll for an alien makes of a game: where a roll is due, the
/// roll comes out one way or the other and the time to the next roll
/// starts; where none is due, nothing changes.
pub open spec fn spawn_checked(before: Game, after: Game, now: u64) -> bool {
    if before.spawn_check_due(now) {
        after == (Game {
            spawn_alien: after.spawn_alien,
            last_alien_spawn_check_instant: now,
            ..before
        })
    } else {
        after == before
    }
}

/// What the moving part of a frame of `dt` milliseconds makes of a game.
pub open spec fn frame_moved(before: Game, after: Game, dt: int, now: u64) -> bool {
    &&& same_session(before, after)
    &&& after.ship == flown_ship(before.ship, before.arena, before.input_set.up, dt, now)
    &&& after.player_projectiles@ == flown(before.player_projectiles@, before.arena, dt)
    &&& after.asteroids@ == drifted(before.asteroids@, before.arena, dt)
    &&& after.particles@ == scattered(before.particles@, dt, now)
    &&& match before.alien {
        Some(alien) => exists|roll_x: int, roll_y: int, rolled: bool| #[trigger]
            alien_turn(before, after, alien, dt, roll_x, roll_y, rolled),
        None => alien_entry(before, after, dt, now),
    }
}

/// How what the collisions of a frame leave behind is made up: the pieces
/// and particles of the player's projectiles, then those of the alien's,
/// then the particles of the ship's crash into an asteroid and of its crash
/// into the alien.
pub open spec fn debris_split(
    before: Game,
    after: Game,
    now: u64,
    pieces: Seq<Asteroid>,
    dust: Seq<Particle>,
    player_pieces: Seq<Asteroid>,
    alien_pieces: Seq<Asteroid>,
    player_dust: Seq<Particle>,
    alien_dust: Seq<Particle>,
    crash: Seq<Particle>,
    ramming: Seq<Particle>,
) -> bool {
    let player_shots = before.player_projectiles@;
    let alien_shots = before.alien_projectiles@;
    let rocks = pass_rocks(
        before.asteroids@,
        player_shots,
        player_passes(player_shots, before.alien),
        player_shots.len() as int,
    );
    let alien = alien_after(
        before.alien,
        absorbed_count(player_shots, before.alien, player_shots.len() as int),
    );
    let shot_ship = ship_after(alien_shots, before.ship, alien_shots.len() as int, now);
    let ship = ship_after_rocks(shot_ship, after.asteroids@, now);
    &&& pieces == player_pieces + alien_pieces
    &&& dust == player_dust + alien_dust + crash + ramming
    &&& player_debris(
        player_shots,
        before.alien,
        before.asteroids@,
        player_pieces,
        player_dust,
        now,
    )
    &&& alien_debris(alien_shots, before.ship, rocks, alien_pieces, alien_dust, now)
    &&& crash_dust(crash, crashes(shot_ship, after.asteroids@), shot_ship.position, now)
    &&& crash_dust(ramming, rams(ship, alien), ship.position, now)
}

/// What the collisions of a frame make of a game, and what they leave
/// behind to join it later.
pub open spec fn collided(
    before: Game,
    after: Game,
    pieces: Seq<Asteroid>,
    dust: Seq<Particle>,
    now: u64,
) -> bool {
    &&& collisions_resolved(before, after, now)
    &&& after.sounds.events@ == before.sounds.events@ + collision_cues(before, after, now)
    &&& after.sounds.same_playing(before.sounds)
    &&& after.arena == before.arena
    &&& after.particles == before.particles
    &&& after.input_set == before.input_set
    &&& after.last_update == before.last_update
    &&& after.last_asteroid_instant == before.last_asteroid_instant
    &&& after.last_alien_spawn_check_instant == before.last_alien_spawn_check_instant
    &&& after.spawn_alien == before.spawn_alien
    &&& after.state == before.state
    &&& exists|
        player_pieces: Seq<Asteroid>,
        alien_pieces: Seq<Asteroid>,
        player_dust: Seq<Particle>,
        alien_dust: Seq<Particle>,
        crash: Seq<Particle>,
        ramming: Seq<Particle>,
    | #[trigger]
        debris_split(
            before,
            after,
            now,
            pieces,
            dust,
            player_pieces,
            alien_pieces,
            player_dust,
            alien_dust,
            crash,
            ramming,
        )
}

/// What the rule for new asteroids makes of a game and of the asteroids
/// that wait to join it: where one is due, a big one that has just appeared
/// beside the arena waits behind the others, and the time to the next
/// starts; where none is due, nothing changes.
pub open spec fn asteroid_fed(
    before: Game,
    after: Game,
    waiting: Seq<Asteroid>,
    fed: Seq<Asteroid>,
    now: u64,
) -> bool {
    if before.asteroid_due(now) {
        &&& after == (Game { last_asteroid_instant: now, ..before })
        &&& fed.len() == waiting.len() + 1
        &&& fed.drop_last() == waiting
        &&& is_arriving(fed.last(), before.arena)
    } else {
        &&& after == before
        &&& fed == waiting
    }
}

/// What clearing up at `now` makes of a game: what is expired or destroyed
/// is gone, the rest stays in its order; an alien whose time is up or that
/// was destroyed is gone too, its sounds stop, and the time to the next
/// roll for an alien starts.
pub open spec fn cleared_up(before: Game, after: Game, now: u64) -> bool {
    &&& after.player_projectiles@ == before.player_projectiles@.filter(is_flying())
    &&& after.alien_projectiles@ == before.alien_projectiles@.filter(is_flying())
    &&& after.asteroids@ == before.asteroids@.filter(is_intact())
    &&& after.particles@ == before.particles@.filter(is_glowing())
    &&& after.arena == before.arena
    &&& after.ship == before.ship
    &&& after.score == before.score
    &&& after.input_set == before.input_set
    &&& after.last_update == before.last_update
    &&& after.last_asteroid_instant == before.last_asteroid_instant
    &&& after.spawn_alien == before.spawn_alien
    &&& after.state == before.state
    &&& after.sounds.thrust_playing == before.sounds.thrust_playing
    &&& match before.alien {
        Some(a) => if a.aged(now).expired {
            &&& after.alien is None
            &&& after.last_alien_spawn_check_instant == now
            &&& after.sounds.events@ == before.sounds.events@ + alien_stop_cues(before.sounds)
            &&& !after.sounds.alien_music_playing
            &&& !after.sounds.alien_warning_playing
        } else {
            &&& after.alien == Some(a.aged(now))
            &&& after.last_alien_spawn_check_instant == before.last_alien_spawn_check_instant
            &&& after.sounds == before.sounds
        },
        None => {
            &&& after.alien is None
            &&& after.last_alien_spawn_check_instant == before.last_alien_spawn_check_instant
            &&& after.sounds == before.sounds
        },
    }
}

/// What the end of a frame makes of a game: the asteroids and particles
/// that waited join it behind the others, and the session is over if the
/// ship has no health left.
pub open spec fn joined(
    before: Game,
    after: Game,
    pieces: Seq<Asteroid>,
    dust: Seq<Particle>,
) -> bool {
    &&& after.asteroids@ == before.asteroids@ + pieces
    &&& after.particles@ == before.particles@ + dust
    &&& after.state == if before.ship.health <= 0 {
        SessionState::GameOver
    } else {
        before.state
    }
    &&& after.arena == before.arena
    &&& after.ship == before.ship
    &&& after.player_projectiles == before.player_projectiles
    &&& after.alien_projectiles == before.alien_projectiles
    &&& after.alien == before.alien
    &&& after.score == before.score
    &&& after.input_set == before.input_set
    &&& after.last_update == before.last_update
    &&& after.last_asteroid_instant == before.last_asteroid_instant
    &&& after.last_alien_spawn_check_instant == before.last_alien_spawn_check_instant
    &&& after.spawn_alien == before.spawn_alien
    &&& after.sounds == before.sounds
}

/// The steps of a frame of a running session that ends at `now`, from the
/// game before it to the game after it: the clock and the roll for an
/// alien; the keys that are held and the motion of everything; the
/// collisions; a new asteroid where one is due; the clearing up; and the
/// joining of what the frame has made.
pub open spec fn frame_steps(
    before: Game,
    rolled: Game,
    moved: Game,
    struck: Game,
    fed: Game,
    cleared: Game,
    after: Game,
    pieces: Seq<Asteroid>,
    waiting: Seq<Asteroid>,
    dust: Seq<Particle>,
    now: u64,
    heading: Vector2,
) -> bool {
    let dt = frame_length(before.last_update as int, now as int);
    &&& spawn_checked(Game { last_update: now, ..before }, rolled, now)
    &&& frame_moved(
        Game { ship: steered(rolled.ship, rolled.input_set, dt, heading), ..rolled },
        moved,
        dt,
        now,
    )
    &&& collided(moved, struck, pieces, dust, now)
    &&& asteroid_fed(struck, fed, pieces, waiting, now)
    &&& cleared_up(fed, cleared, now)
    &&& joined(cleared, after, waiting, dust)
}

/// `after` is what one frame that ends at `now` makes of the running
/// session `before`, for some outcome of the rolls.
pub open spec fn is_frame(before: Game, after: Game, now: u64, heading: Vector2) -> bool {
    exists|
        rolled: Game,
        moved: Game,
        struck: Game,
        fed: Game,
        cleared: Game,
        pieces: Seq<Asteroid>,
        waiting: Seq<Asteroid>,
        dust: Seq<Particle>,
    | #[trigger]
        frame_steps(
            before,
            rolled,
            moved,
            struck,
            fed,
            cleared,
            after,
            pieces,
            waiting,
            dust,
            now,
            heading,
        )
}

/// New asteroids joined to new asteroids are new asteroids.
proof fn lemma_new_rocks_join(rocks: Seq<Asteroid>, more: Seq<Asteroid>)
    requires
        all_new_rocks(rocks),
        all_new_rocks(more),
    ensures
        all_new_rocks(rocks + more),
{
    assert forall|k: int| 0 <= k < (rocks + more).len() implies (#[trigger] (rocks + more)[k]).wf()
        && !(rocks + more)[k].destroyed by {
        if k < rocks.len() {
            assert((rocks + more)[k] == rocks[k]);
        } else {
            assert((rocks + more)[k] == more[k - rocks.len()]);
        }
    }
}

/// New particles joined to new particles are new particles.
proof fn lemma_new_dust_join(dust: Seq<Particle>, more: Seq<Particle>, now: u64)
    requires
        all_new_dust(dust, now),
        all_new_dust(more, now),
    ensures
        all_new_dust(dust + more, now),
{
    assert forall|k: int| 0 <= k < (dust + more).len() implies (#[trigger] (dust + more)[k]).wf()
        && !(dust + more)[k].expired && (dust + more)[k].creation_time == now by {
        if k < dust.len() {
            assert((dust + more)[k] == dust[k]);
        } else {
            assert((dust + more)[k] == more[k - dust.len()]);
        }
    }
}

/// A burst is made of new particles.
proof fn lemma_burst_is_new(dust: Seq<Particle>, position: Vector2, now: u64)
    requires
        crate::collision::burst_at(dust, position, now),
    ensures
        all_new_dust(dust, now),
{
    assert forall|k: int| 0 <= k < dust.len() implies (#[trigger] dust[k]).wf()
        && !dust[k].expired && dust[k].creation_time == now by {
        assert(dust[k].is_fresh(position, now));
    }
}

/// Joined sequences of well-formed things are well formed, and of things
/// that are still there, still there.
proof fn lemma_rocks_join(rocks: Seq<Asteroid>, more: Seq<Asteroid>)
    requires
        rocks_wf(rocks),
        all_intact(rocks),
        all_new_rocks(more),
    ensures
        rocks_wf(rocks + more),
        all_intact(rocks + more),
{
    assert forall|k: int| 0 <= k < (rocks + more).len() implies (#[trigger] (rocks + more)[k]).wf()
        && !(rocks + more)[k].destroyed by {
        if k < rocks.len() {
            assert((rocks + more)[k] == rocks[k]);
        } else {
            assert((rocks + more)[k] == more[k - rocks.len()]);
        }
    }
}

proof fn lemma_dust_join(dust: Seq<Particle>, more: Seq<Particle>, now: u64)
    requires
        dust_wf(dust),
        all_glowing(dust),
        all_new_dust(more, now),
    ensures
        dust_wf(dust + more),
        all_glowing(dust + more),
{
    assert forall|k: int| 0 <= k < (dust + more).len() implies (#[trigger] (dust + more)[k]).wf()
        && !(dust + more)[k].expired by {
        if k < dust.len() {
            assert((dust + more)[k] == dust[k]);
        } else {
            assert((dust + more)[k] == more[k - dust.len()]);
        }
    }
}

/// Two rolls for an alien are never closer together than the time between
/// two rolls: after a roll at `first`, none is due at any `second` before
/// that time has passed.
pub proof fn lemma_second_check_is_idle(before: Game, after: Game, first: u64, second: u64)
    requires
        before.spawn_check_due(first),
        after.last_alien_spawn_check_instant == first,
        elapsed(first as int, second as int) < ALIEN_SPAWN_COOLDOWN_MS,
    ensures
        !after.spawn_check_due(second),
{
}

impl Game {
    /// A roll for an alien is due at `now`: there is no alien, and the time
    /// between two rolls has passed since the last.
    pub open spec fn spawn_check_due(self, now: u64) -> bool {
        self.alien is None && elapsed(self.last_alien_spawn_check_instant as int, now as int)
            >= ALIEN_SPAWN_COOLDOWN_MS
    }

    /// An asteroid is due at `now`: there are fewer than the floor, or fewer
    /// than the ceiling and the time between two asteroids has passed.
    pub open spec fn asteroid_due(self, now: u64) -> bool {
        self.asteroids@.len() < ASTEROID_FLOOR || (self.asteroids@.len() < ASTEROID_CEILING
            && elapsed(self.last_asteroid_instant as int, now as int) > ASTEROID_RESPAWN_MS)
    }

    /// Whether a roll for an alien is due at `now`.
    pub fn is_spawn_check_due(&self, now: u64) -> (due: bool)
        ensures
            due == self.spawn_check_due(now),
    {
        self.alien.is_none() && elapsed_ms(self.last_alien_spawn_check_instant, now)
            >= ALIEN_SPAWN_COOLDOWN_MS
    }

    /// Notes how the roll for an alien at `now` came out, and starts the
    /// time to the next roll.
    pub fn note_spawn_roll(&mut self, rolled: bool, now: u64)
        ensures
            *final(self) == (Game {
                spawn_alien: rolled,
                last_alien_spawn_check_instant: now,
                ..*old(self)
            }),
    {
        self.spawn_alien = rolled;
        self.last_alien_spawn_check_instant = now;
    }

    /// Rolls for an alien where a roll is due, and starts the time to the
    /// next roll however the roll came out. Where none is due nothing
    /// changes, so within that time no second alien is rolled for.
    pub fn alien_spawn_check(&mut self, rng: &mut ThreadRng, now: u64)
        ensures
            spawn_checked(*old(self), *final(self), now),
    {
        if self.is_spawn_check_due(now) {
            let rolled: bool = roll_ratio(rng, 1, ALIEN_SPAWN_ROLLS);
            self.note_spawn_roll(rolled, now);
        }
    }

    /// The angle that the ship will have after a frame of `dt` milliseconds:
    /// the host works out its direction and hands it to `update`.
    pub fn planned_rotation(&self, dt: u32) -> (rotation: i64)
        requires
            self.ship.wf(),
        ensures
            rotation == steered_angle(self.ship.rotation as int, self.input_set, dt as int),
            0 <= rotation < crate::ship::FULL_TURN,
    {
        if self.input_set.left && !self.input_set.right {
            Ship::next_rotation(self.ship.rotation, RotationDirection::LEFT, dt)
        } else if self.input_set.right && !self.input_set.left {
            Ship::next_rotation(self.ship.rotation, RotationDirection::RIGHT, dt)
        } else {
            self.ship.rotation
        }
    }

    /// Lets the keys that are held act on the ship for `dt` milliseconds.
    pub fn handle_input(&mut self, dt: u32, heading: Vector2)
        requires
            old(self).ship.wf(),
            heading.is_unit(),
        ensures
            *final(self) == (Game {
                ship: steered(old(self).ship, old(self).input_set, dt as int, heading),
                ..*old(self)
            }),
            final(self).ship.wf(),
            final(self).ship.rotation == steered_angle(
                old(self).ship.rotation as int,
                old(self).input_set,
                dt as int,
            ),
    {
        if self.input_set.up {
            self.ship.apply_thrust(dt);
        }
        if self.input_set.left && !self.input_set.right {
            self.ship.rotate(RotationDirection::LEFT, dt, heading);
        } else if self.input_set.right && !self.input_set.left {
            self.ship.rotate(RotationDirection::RIGHT, dt, heading);
        }
    }

    /// The part of a frame that belongs to the alien: one that is there
    /// roams, aims at the ship and may fire; where there is none and the
    /// roll for one had come out, one enters.
    pub fn update_alien(&mut self, rng: &mut ThreadRng, dt: u32, now: u64)
        requires
            old(self).wf(),
        ensures
            final(self).wf(),
            same_but_alien(*old(self), *final(self)),
            match old(self).alien {
                Some(alien) => exists|roll_x: int, roll_y: int, rolled: bool| #[trigger]
                    alien_acts(*old(self), *final(self), alien, dt as int, roll_x, roll_y, rolled),
                None => alien_enters(*old(self), *final(self), now),
            },
    {
        match &mut self.alien {
            Some(alien) => {
                let ghost alien_before = *alien;
                alien.move_forward(rng, &self.arena, dt);
                let ghost (roll_x, roll_y) = choose|roll_x: int, roll_y: int|
                    0 <= roll_x < crate::alien::SIDEWAYS_ROLLS && 0 <= roll_y
                        < crate::alien::UPWARD_ROLLS && *alien == (#[trigger] alien_before.steered(
                        roll_x,
                        roll_y,
                    )).moved(self.arena, dt as int);
                alien.update_aim(&self.ship.position);
                let shot: Option<Projectile> = alien.shoot(rng);
                let ghost rolled = shot == alien.fires(true);
                let ghost roaming = *alien;
                match shot {
                    Some(alien_projectile) => {
                        self.alien_projectiles.push(alien_projectile);
                        self.sounds.play_alien_shoot_sound();
                    },
                    None => {},
                }
                proof {
                    assert(roaming == roamed(
                        alien_before,
                        self.arena,
                        dt as int,
                        self.ship.position,
                        roll_x,
                        roll_y,
                    ));
                    assert(shot == roaming.fires(rolled));
                    assert(alien_acts(
                        *old(self),
                        *self,
                        alien_before,
                        dt as int,
                        roll_x,
                        roll_y,
                        rolled,
                    ));
                }
            },
            None => {
                if self.spawn_alien {
                    self.alien = Some(Alien::new(rng, &self.arena, now));
                    self.spawn_alien = false;
                    self.sounds.play_alien_music();
                    self.sounds.play_alien_warning_sound();
                }
            },
        }
    }

    /// The part of a frame that moves things: the ship, the alien, the
    /// projectiles, the asteroids and the particles, each for `dt`
    /// milliseconds, with the tests of whether a projectile has left the
    /// arena and whether a particle's or the immunity's time is up at `now`.
    pub fn handle_game_updates(&mut self, rng: &mut ThreadRng, dt: u32, now: u64)
        requires
            old(self).wf(),
        ensures
            final(self).wf(),
            frame_moved(*old(self), *final(self), dt as int, now),
    {
        self.ship.move_forward(&self.arena, dt);
        if !self.input_set.up {
            self.ship.apply_friction(dt);
        }
        self.ship.handle_immune_timeout(now);
        self.ship.update_collision_rect();
        let ghost mid = *self;
        self.update_alien(rng, dt, now);
        let ghost acted = *self;
        advance_projectiles(&mut self.player_projectiles, &self.arena, dt);
        advance_projectiles(&mut self.alien_projectiles, &self.arena, dt);
        advance_asteroids(&mut self.asteroids, &self.arena, dt);
        advance_particles(&mut self.particles, dt, now);
        proof {
            match old(self).alien {
                Some(alien) => {
                    let (roll_x, roll_y, rolled) = choose|roll_x: int, roll_y: int, rolled: bool| #[trigger]
                        alien_acts(mid, acted, alien, dt as int, roll_x, roll_y, rolled);
                    assert(alien_turn(*old(self), *self, alien, dt as int, roll_x, roll_y, rolled));
                },
                None => {
                    assert(alien_entry(*old(self), *self, dt as int, now));
                },
            }
        }
    }

    /// The collisions of one frame. What they destroy is only marked; the
    /// asteroids and particles that they make are handed back, to join the
    /// game once the frame has been cleared up.
    pub fn resolve_collisions(&mut self, rng: &mut ThreadRng, now: u64) -> (out: (
        Vec<Asteroid>,
        Vec<Particle>,
    ))
        requires
            old(self).wf(),
        ensures
            final(self).wf(),
            collided(*old(self), *final(self), out.0@, out.1@, now),
            final(self).score.score >= old(self).score.score,
            final(self).ship == old(self).ship || final(self).ship == old(self).ship.damaged(now),
            all_new_rocks(out.0@),
            all_new_dust(out.1@, now),
    {
        let ghost before = *self;
        let (mut new_asteroids, mut new_particles) = handle_player_projectile_collisions(
            rng,
            &mut self.alien,
            &mut self.player_projectiles,
            &mut self.asteroids,
            &mut self.score,
            &mut self.sounds,
            now,
        );
        let ghost shot = *self;
        let ghost player_pieces = new_asteroids@;
        let ghost player_dust = new_particles@;
        proof {
            lemma_pass_debris(
                new_asteroids@,
                new_particles@,
                before.player_projectiles@,
                player_passes(before.player_projectiles@, before.alien),
                place_of(before.alien),
                alien_bounds(before.player_projectiles@, before.alien),
                before.asteroids@,
                before.player_projectiles@.len() as int,
                now,
            );
            assert forall|i: int| 0 <= i < self.player_projectiles@.len() implies (
            #[trigger] self.player_projectiles@[i]).wf() by {
                assert(before.player_projectiles@[i].wf());
            }
        }
        let (mut more_asteroids, mut more_particles) = handle_alien_projectile_collisions(
            rng,
            &mut self.ship,
            &mut self.alien_projectiles,
            &mut self.asteroids,
            &mut self.score,
            &mut self.sounds,
            now,
        );
        let ghost alien_pieces = more_asteroids@;
        let ghost alien_dust = more_particles@;
        proof {
            lemma_pass_debris(
                more_asteroids@,
                more_particles@,
                before.alien_projectiles@,
                alien_passes(before.alien_projectiles@, before.ship),
                Some(before.ship.position),
                ship_bounds(before.alien_projectiles@),
                shot.asteroids@,
                before.alien_projectiles@.len() as int,
                now,
            );
            lemma_new_rocks_join(new_asteroids@, more_asteroids@);
            lemma_new_dust_join(new_particles@, more_particles@, now);
            assert forall|i: int| 0 <= i < self.alien_projectiles@.len() implies (
            #[trigger] self.alien_projectiles@[i]).wf() by {
                assert(before.alien_projectiles@[i].wf());
            }
        }
        new_asteroids.append(&mut more_asteroids);
        new_particles.append(&mut more_particles);
        let ghost fired = *self;
        let ghost dust_so_far = new_particles@;
        let ghost mut crash: Seq<Particle> = Seq::empty();
        match handle_ship_asteroid_collisions(
            rng,
            &mut self.ship,
            &self.asteroids,
            &mut self.sounds,
            now,
        ) {
            Some(mut burst) => {
                proof {
                    crash = burst@;
                    if crashes(fired.ship, self.asteroids@) {
                        lemma_burst_is_new(burst@, fired.ship.position, now);
                    }
                    lemma_new_dust_join(dust_so_far, burst@, now);
                }
                new_particles.append(&mut burst);
            },
            None => {},
        }
        let ghost crashed = *self;
        let ghost dust_then = new_particles@;
        let ghost mut ramming: Seq<Particle> = Seq::empty();
        match handle_ship_alien_collisions(
            rng,
            &mut self.ship,
            &mut self.alien,
            &mut self.score,
            &mut self.sounds,
            now,
        ) {
            Some(mut burst) => {
                proof {
                    ramming = burst@;
                    if rams(crashed.ship, crashed.alien) {
                        lemma_burst_is_new(burst@, crashed.ship.position, now);
                    }
                    lemma_new_dust_join(dust_then, burst@, now);
                }
                new_particles.append(&mut burst);
            },
            None => {},
        }
        proof {
            assert(self.sounds.events@ =~= before.sounds.events@ + collision_cues(
                before,
                *self,
                now,
            ));
            assert(new_particles@ =~= player_dust + alien_dust + crash + ramming);
            assert(debris_split(
                before,
                *self,
                now,
                new_asteroids@,
                new_particles@,
                player_pieces,
                alien_pieces,
                player_dust,
                alien_dust,
                crash,
                ramming,
            ));
        }
        (new_asteroids, new_particles)
    }

    /// Whether an asteroid is due at `now`.
    pub fn is_asteroid_due(&self, now: u64) -> (due: bool)
        ensures
            due == self.asteroid_due(now),
    {
        self.asteroids.len() < ASTEROID_FLOOR || (self.asteroids.len() < ASTEROID_CEILING
            && elapsed_ms(self.last_asteroid_instant, now) > ASTEROID_RESPAWN_MS)
    }

    /// Adds an asteroid to those that wait to join where one is due, and
    /// starts the time to the next.
    pub fn maintain_asteroids(
        &mut self,
        rng: &mut ThreadRng,
        now: u64,
        waiting: &mut Vec<Asteroid>,
    )
        requires
            old(self).arena.wf(),
        ensures
            asteroid_fed(*old(self), *final(self), old(waiting)@, final(waiting)@, now),
    {
        if self.is_asteroid_due(now) {
            let asteroid: Asteroid = Asteroid::new(rng, &self.arena);
            waiting.push(asteroid);
            self.last_asteroid_instant = now;
            proof {
                assert(waiting@.drop_last() =~= old(waiting)@);
            }
        }
    }

    /// Clears away what is destroyed or expired. An alien whose time is up
    /// at `now`, or that was destroyed, goes too: its sounds stop, and the
    /// time to the next roll for an alien starts.
    pub fn clean_up(&mut self, now: u64)
        ensures
            cleared_up(*old(self), *final(self), now),
            all_flying(final(self).player_projectiles@),
            all_flying(final(self).alien_projectiles@),
            all_intact(final(self).asteroids@),
            all_glowing(final(self).particles@),
            old(self).wf() ==> final(self).wf(),
    {
        retain_flying(&mut self.player_projectiles);
        retain_flying(&mut self.alien_projectiles);
        retain_intact(&mut self.asteroids);
        retain_glowing(&mut self.particles);
        let mut gone: bool = false;
        match &mut self.alien {
            Some(alien) => {
                alien.check_expiration(now);
                gone = alien.expired;
            },
            None => {},
        }
        if gone {
            self.alien = None;
            self.last_alien_spawn_check_instant = now;
            self.sounds.stop_alien_music();
            self.sounds.stop_alien_warning_sound();
            proof {
                assert(self.sounds.events@ =~= old(self).sounds.events@ + alien_stop_cues(
                    old(self).sounds,
                ));
            }
        }
    }

    /// Ends the session once the ship has no health left.
    pub fn check_game_over(&mut self)
        ensures
            *final(self) == (Game {
                state: if old(self).ship.health <= 0 {
                    SessionState::GameOver
                } else {
                    old(self).state
                },
                ..*old(self)
            }),
    {
        if self.ship.health <= 0 {
            self.state = SessionState::GameOver;
        }
    }

    /// One frame, which ends at `now`. While the session is paused or over
    /// only the clock moves. While it runs: the roll for an alien, the keys
    /// that are held, the motion of everything, the collisions, a new
    /// asteroid where one is due, the clearing up, and the test of whether
    /// the session is over. `heading` is the direction of the angle that
    /// `planned_rotation` gives for this frame.
    pub fn update(&mut self, rng: &mut ThreadRng, now: u64, heading: Vector2)
        requires
            old(self).wf(),
            heading.is_unit(),
        ensures
            final(self).wf(),
            final(self).last_update == now,
            final(self).arena == old(self).arena,
            final(self).input_set == old(self).input_set,
            final(self).score.score >= old(self).score.score,
            old(self).state != SessionState::Running ==> *final(self) == (Game {
                last_update: now,
                ..*old(self)
            }),
            old(self).state == SessionState::Running ==> {
                let dt = frame_length(old(self).last_update as int, now as int);
                let flying = flown_ship(
                    steered(old(self).ship, old(self).input_set, dt, heading),
                    old(self).arena,
                    old(self).input_set.up,
                    dt,
                    now,
                );
                &&& is_frame(*old(self), *final(self), now, heading)
                &&& (final(self).ship == flying || final(self).ship == flying.damaged(now))
                &&& final(self).state == if final(self).ship.health <= 0 {
                    SessionState::GameOver
                } else {
                    SessionState::Running
                }
                &&& all_intact(final(self).asteroids@)
                &&& all_flying(final(self).player_projectiles@)
                &&& all_flying(final(self).alien_projectiles@)
                &&& all_glowing(final(self).particles@)
                &&& (final(self).alien matches Some(a) ==> !a.expired)
            },
    {
        let dt: u32 = frame_delta(self.last_update, now);
        self.last_update = now;
        if self.state != SessionState::Running {
            return;
        }
        self.alien_spawn_check(rng, now);
        let ghost rolled = *self;
        self.handle_input(dt, heading);
        self.handle_game_updates(rng, dt, now);
        let ghost moved = *self;
        let (mut new_asteroids, mut new_particles) = self.resolve_collisions(rng, now);
        let ghost struck = *self;
        let ghost pieces = new_asteroids@;
        let ghost dust = new_particles@;
        self.maintain_asteroids(rng, now, &mut new_asteroids);
        let ghost fed = *self;
        let ghost waiting = new_asteroids@;
        proof {
            assert forall|i: int| 0 <= i < waiting.len() implies (#[trigger] waiting[i]).wf()
                && !waiting[i].destroyed by {
                if i < pieces.len() {
                    assert(waiting[i] == pieces[i]) by {
                        if waiting.len() != pieces.len() {
                            assert(waiting.drop_last()[i] == pieces[i]);
                        }
                    }
                } else {
                    assert(waiting[i] == waiting.last());
                }
            }
        }
        self.clean_up(now);
        let ghost cleared = *self;
        proof {
            lemma_rocks_join(self.asteroids@, new_asteroids@);
            lemma_dust_join(self.particles@, new_particles@, now);
        }
        self.asteroids.append(&mut new_asteroids);
        self.particles.append(&mut new_particles);
        self.check_game_over();
        proof {
            assert(frame_steps(
                *old(self),
                rolled,
                moved,
                struck,
                fed,
                cleared,
                *self,
                pieces,
                waiting,
                dust,
                now,
                heading,
            ));
        }
    }
}

} // verus!
