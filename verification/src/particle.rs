//! Debris: short-lived squares thrown out where something was hit. They
//! collide with nothing.

use rand::rngs::ThreadRng;
use vstd::prelude::*;
use crate::clock::{elapsed, elapsed_ms};
use crate::random::roll_range;
use crate::vector::{Vector2, DIRECTION_ONE};

verus! {

pub const PARTICLE_SPEED: i64 = 100;

pub const PARTICLE_DURATION_MS: u64 = 1_500;

pub const PARTICLE_MIN_SIZE: i64 = 3_000_000;

pub const PARTICLE_MAX_SIZE: i64 = 5_000_000;

#[derive(Clone, Copy, Debug, PartialEq, Eq, Structural)]
pub struct Particle {
    pub position: Vector2,
    /// The side of the square.
    pub size: i64,
    pub creation_time: u64,
    pub forward: Vector2,
    pub expired: bool,
}

impl Particle {
    pub open spec fn wf(self) -> bool {
        &&& self.position.in_world()
        &&& self.forward.is_direction()
        &&& PARTICLE_MIN_SIZE <= self.size <= PARTICLE_MAX_SIZE
    }

    /// The particle has just been made at `position` at the time `now`.
    pub open spec fn is_fresh(self, position: Vector2, now: u64) -> bool {
        &&& self.wf()
        &&& self.position == position
        &&& self.creation_time == now
        &&& !self.expired
    }

    /// The particle after `dt` milliseconds of flight.
    pub open spec fn moved(self, dt: int) -> Particle {
        Particle {
            position: self.position.advanced(self.forward, PARTICLE_SPEED as int, dt),
            ..self
        }
    }

    /// The particle after the test of its age at the time `now`.
    pub open spec fn aged(self, now: u64) -> Particle {
        Particle {
            expired: self.expired || elapsed(self.creation_time as int, now as int)
                > PARTICLE_DURATION_MS,
            ..self
        }
    }

    /// Whether the particle is well formed.
    pub fn is_valid(&self) -> (valid: bool)
        ensures
            valid == self.wf(),
    {
        self.position.fits_world() && self.forward.fits_direction() && PARTICLE_MIN_SIZE
            <= self.size && self.size <= PARTICLE_MAX_SIZE
    }

    /// The particle of the given size and heading, made at `now`.
    pub fn with(position: Vector2, size: i64, forward: Vector2, now: u64) -> (p: Particle)
        requires
            position.in_world(),
            forward.is_direction(),
            PARTICLE_MIN_SIZE <= size <= PARTICLE_MAX_SIZE,
        ensures
            p == (Particle { position, size, creation_time: now, forward, expired: false }),
            p.is_fresh(position, now),
    {
        Particle { position, size, creation_time: now, forward, expired: false }
    }

    /// A particle at `position` of a random size, on a random heading.
    pub fn new(rng: &mut ThreadRng, position: &Vector2, now: u64) -> (p: Particle)
        requires
            position.in_world(),
        ensures
            p.is_fresh(*position, now),
    {
        let size: i64 = roll_range(rng, PARTICLE_MIN_SIZE, PARTICLE_MAX_SIZE);
        let x: i64 = roll_range(rng, -DIRECTION_ONE, DIRECTION_ONE);
        let y: i64 = roll_range(rng, -DIRECTION_ONE, DIRECTION_ONE);
        Particle::with(*position, size, Vector2 { x, y }, now)
    }

    /// Moves the particle for `dt` milliseconds. It does not wrap.
    pub fn move_forward(&mut self, dt: u32)
        requires
            old(self).wf(),
        ensures
            *final(self) == old(self).moved(dt as int),
            final(self).wf(),
    {
        self.position = self.position.advance(self.forward, PARTICLE_SPEED, dt);
    }

    /// A burst of particles at `position`: at least `min_particles` and at
    /// most `max_particles` of them.
    pub fn create_particle_effect(
        rng: &mut ThreadRng,
        position: &Vector2,
        min_particles: u32,
        max_particles: u32,
        now: u64,
    ) -> (particles: Vec<Particle>)
        requires
            position.in_world(),
            min_particles <= max_particles,
        ensures
            min_particles <= particles@.len() <= max_particles,
            forall|i: int|
                0 <= i < particles@.len() ==> (#[trigger] particles@[i]).is_fresh(*position, now),
    {
        let mut particles: Vec<Particle> = Vec::new();
        let count: i64 = roll_range(rng, min_particles as i64, max_particles as i64);
        let mut made: i64 = 0;
        while made < count
            invariant
                0 <= made <= count,
                min_particles <= count <= max_particles,
                particles@.len() == made,
                position.in_world(),
                forall|i: int|
                    0 <= i < particles@.len() ==> (#[trigger] particles@[i]).is_fresh(
                        *position,
                        now,
                    ),
            decreases count - made,
        {
            let particle: Particle = Particle::new(rng, position, now);
            particles.push(particle);
            made = made + 1;
        }
        particles
    }

    /// Expires the particle once it has lasted longer than its lifetime.
    pub fn check_expiration(&mut self, now_time: u64)
        ensures
            *final(self) == old(self).aged(now_time),
            old(self).wf() ==> final(self).wf(),
    {
        if elapsed_ms(self.creation_time, now_time) > PARTICLE_DURATION_MS {
            self.expired = true;
        }
    }
}

} // verus!
