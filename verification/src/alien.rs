//! The alien: it wanders across the arena for a fixed time, aims at the
//! ship, shoots now and then, and takes several hits before it is gone.

use rand::rngs::ThreadRng;
use vstd::prelude::*;
use crate::arena::{Arena, Margins};
use crate::clock::{elapsed, elapsed_ms};
use crate::projectile::Projectile;
use crate::random::{roll_range, roll_ratio};
use crate::vector::{Vector2, DIRECTION_ONE};

verus! {

/// The alien's speed, in arena units per second.
pub const SPEED: i64 = 200;

/// How long an alien stays, in milliseconds.
pub const ALIEN_DURATION_MS: u64 = 28_000;

/// How far the alien reaches to either side of its position.
pub const ALIEN_X_BOUND: i64 = 55_000_000;

/// How far the alien reaches above its position.
pub const ALIEN_NEGATIVE_Y_BOUND: i64 = 30_000_000;

/// How far the alien reaches below its position.
pub const ALIEN_POSITIVE_Y_BOUND: i64 = 15_000_000;

/// How far outside the arena the alien appears.
pub const ALIEN_ENTRY_OFFSET: i64 = 60_000_000;

pub const ALIEN_STARTING_HEALTH: i32 = 3;

/// In each frame the heading changes sideways with a chance of two in this.
pub const SIDEWAYS_ROLLS: i64 = 500;

/// In each frame the heading changes up or down with a chance of two in this.
pub const UPWARD_ROLLS: i64 = 250;

/// In each frame an alien that has an aim shoots with a chance of one in this.
pub const SHOT_ROLLS: u32 = 100;

#[derive(Clone, Copy, Debug)]
pub struct Alien {
    pub position: Vector2,
    pub forward: Vector2,
    /// The direction in which the alien shoots, once it has one.
    pub aim: Option<Vector2>,
    pub health: i32,
    pub creation_time: u64,
    pub expired: bool,
}

/// A heading component after the roll of one frame: a roll of zero turns it
/// up by one, a roll of one turns it down by one, and it stays between
/// minus one and one.
pub open spec fn nudged(forward: int, roll: int) -> int {
    if forward < DIRECTION_ONE && roll == 0 {
        if forward + DIRECTION_ONE > DIRECTION_ONE {
            DIRECTION_ONE as int
        } else {
            forward + DIRECTION_ONE
        }
    } else if forward > -DIRECTION_ONE && roll == 1 {
        if forward - DIRECTION_ONE < -DIRECTION_ONE {
            -DIRECTION_ONE as int
        } else {
            forward - DIRECTION_ONE
        }
    } else {
        forward
    }
}

/// The margins with which the alien wraps: as far as it reaches on each
/// side, so that it has fully left before it comes back.
pub open spec fn alien_margins() -> Margins {
    Margins {
        left: ALIEN_X_BOUND,
        right: ALIEN_X_BOUND,
        top: ALIEN_POSITIVE_Y_BOUND,
        bottom: ALIEN_NEGATIVE_Y_BOUND,
    }
}

impl Alien {
    pub open spec fn wf(self) -> bool {
        &&& self.position.in_world()
        &&& self.forward.is_direction()
        &&& (self.aim matches Some(aim) ==> aim.is_direction())
        &&& 0 <= self.health
        &&& self.health == 0 ==> self.expired
    }

    /// The alien as it enters at `now`: outside the left edge heading right,
    /// or outside the right edge heading left, halfway down the arena.
    pub open spec fn entering(arena: Arena, from_left: bool, now: u64) -> Alien {
        Alien {
            position: Vector2 {
                x: if from_left {
                    (-ALIEN_ENTRY_OFFSET) as i64
                } else {
                    (arena.width + ALIEN_ENTRY_OFFSET) as i64
                },
                y: (arena.height / 2) as i64,
            },
            forward: Vector2 {
                x: if from_left {
                    DIRECTION_ONE
                } else {
                    (-DIRECTION_ONE) as i64
                },
                y: 0,
            },
            aim: None,
            health: ALIEN_STARTING_HEALTH,
            creation_time: now,
            expired: false,
        }
    }

    /// The alien after the rolls of one frame have changed its heading.
    pub open spec fn steered(self, roll_x: int, roll_y: int) -> Alien {
        Alien {
            forward: Vector2 {
                x: nudged(self.forward.x as int, roll_x) as i64,
                y: nudged(self.forward.y as int, roll_y) as i64,
            },
            ..self
        }
    }

    /// The alien after `dt` milliseconds along its heading, carried across
    /// an edge once it has fully left.
    pub open spec fn moved(self, arena: Arena, dt: int) -> Alien {
        Alien {
            position: arena.wrapped_point(
                self.position.advanced(self.forward, SPEED as int, dt),
                alien_margins(),
            ),
            ..self
        }
    }

    /// The alien after one hit: a point of health less, and expired once
    /// none is left. An alien without health is not changed.
    pub open spec fn hit(self) -> Alien {
        if self.health > 0 {
            Alien {
                health: (self.health - 1) as i32,
                expired: self.expired || self.health == 1,
                ..self
            }
        } else {
            self
        }
    }

    /// This hit is the one that takes the last point of health.
    pub open spec fn dies_of_hit(self) -> bool {
        self.health == 1
    }

    /// The alien after the test of its age at `now`.
    pub open spec fn aged(self, now: u64) -> Alien {
        Alien {
            expired: self.expired || elapsed(self.creation_time as int, now as int)
                >= ALIEN_DURATION_MS,
            ..self
        }
    }

    /// What the alien fires: a projectile along its aim where it has one and
    /// the roll for the shot came out, else nothing.
    pub open spec fn fires(self, rolled: bool) -> Option<Projectile> {
        match self.aim {
            Some(aim) => if rolled {
                Some(Projectile::fired(self.position, aim))
            } else {
                None
            },
            None => None,
        }
    }

    /// Whether the alien is well formed.
    pub fn is_valid(&self) -> (valid: bool)
        ensures
            valid == self.wf(),
    {
        let aim_fits: bool = match self.aim {
            Some(aim) => aim.fits_direction(),
            None => true,
        };
        self.position.fits_world() && self.forward.fits_direction() && aim_fits && 0
            <= self.health && (self.health != 0 || self.expired)
    }

    /// The alien that enters at `now` from the left or from the right.
    pub fn arriving(arena: &Arena, from_left: bool, now: u64) -> (alien: Alien)
        requires
            arena.wf(),
        ensures
            alien == Alien::entering(*arena, from_left, now),
            alien.wf(),
    {
        let position: Vector2 = if from_left {
            Vector2 { x: -ALIEN_ENTRY_OFFSET, y: arena.height / 2 }
        } else {
            Vector2 { x: arena.width + ALIEN_ENTRY_OFFSET, y: arena.height / 2 }
        };
        let forward: Vector2 = if from_left {
            Vector2 { x: DIRECTION_ONE, y: 0 }
        } else {
            Vector2 { x: -DIRECTION_ONE, y: 0 }
        };
        Alien {
            position,
            forward,
            aim: None,
            health: ALIEN_STARTING_HEALTH,
            creation_time: now,
            expired: false,
        }
    }

    /// An alien that enters at `now` from either side, each as likely as
    /// the other.
    pub fn new(rng: &mut ThreadRng, arena: &Arena, now: u64) -> (alien: Alien)
        requires
            arena.wf(),
        ensures
            alien == Alien::entering(*arena, true, now) || alien == Alien::entering(
                *arena,
                false,
                now,
            ),
            alien.wf(),
    {
        let from_left: bool = roll_ratio(rng, 1, 2);
        Alien::arriving(arena, from_left, now)
    }

    /// A heading component after the roll of one frame.
    pub fn nudge(forward: i64, roll: i64) -> (r: i64)
        requires
            -DIRECTION_ONE <= forward <= DIRECTION_ONE,
        ensures
            r == nudged(forward as int, roll as int),
            -DIRECTION_ONE <= r <= DIRECTION_ONE,
    {
        if forward < DIRECTION_ONE && roll == 0 {
            if forward + DIRECTION_ONE > DIRECTION_ONE {
                DIRECTION_ONE
            } else {
                forward + DIRECTION_ONE
            }
        } else if forward > -DIRECTION_ONE && roll == 1 {
            if forward - DIRECTION_ONE < -DIRECTION_ONE {
                -DIRECTION_ONE
            } else {
                forward - DIRECTION_ONE
            }
        } else {
            forward
        }
    }

    /// Changes the heading by the rolls of one frame.
    pub fn steer(&mut self, roll_x: i64, roll_y: i64)
        requires
            old(self).wf(),
        ensures
            *final(self) == old(self).steered(roll_x as int, roll_y as int),
            final(self).wf(),
    {
        self.forward = Vector2 {
            x: Alien::nudge(self.forward.x, roll_x),
            y: Alien::nudge(self.forward.y, roll_y),
        };
    }

    /// The margins with which the alien wraps.
    pub fn margins() -> (m: Margins)
        ensures
            m == alien_margins(),
            m.wf(),
    {
        Margins {
            left: ALIEN_X_BOUND,
            right: ALIEN_X_BOUND,
            top: ALIEN_POSITIVE_Y_BOUND,
            bottom: ALIEN_NEGATIVE_Y_BOUND,
        }
    }

    /// Moves the alien for `dt` milliseconds along its heading and wraps it.
    pub fn advance(&mut self, arena: &Arena, dt: u32)
        requires
            old(self).wf(),
            arena.wf(),
        ensures
            *final(self) == old(self).moved(*arena, dt as int),
            final(self).wf(),
            arena.holds(final(self).position, alien_margins()),
    {
        self.position = self.position.advance(self.forward, SPEED, dt);
        self.clamp_position(arena);
    }

    /// One frame of wandering: the heading may change on either axis, then
    /// the alien moves for `dt` milliseconds and wraps.
    pub fn move_forward(&mut self, rng: &mut ThreadRng, arena: &Arena, dt: u32)
        requires
            old(self).wf(),
            arena.wf(),
        ensures
            exists|roll_x: int, roll_y: int|
                0 <= roll_x < SIDEWAYS_ROLLS && 0 <= roll_y < UPWARD_ROLLS && *final(self) == (
                #[trigger] old(self).steered(roll_x, roll_y)).moved(*arena, dt as int),
            final(self).wf(),
            arena.holds(final(self).position, alien_margins()),
            final(self).health == old(self).health,
            final(self).expired == old(self).expired,
            final(self).aim == old(self).aim,
            final(self).creation_time == old(self).creation_time,
    {
        let random_x: i64 = roll_range(rng, 0, SIDEWAYS_ROLLS - 1);
        let random_y: i64 = roll_range(rng, 0, UPWARD_ROLLS - 1);
        self.steer(random_x, random_y);
        self.advance(arena, dt);
        assert(*self == old(self).steered(random_x as int, random_y as int).moved(
            *arena,
            dt as int,
        ));
    }

    /// Carries an alien that has fully left the arena to the other side.
    pub fn clamp_position(&mut self, arena: &Arena)
        requires
            arena.wf(),
        ensures
            *final(self) == (Alien {
                position: arena.wrapped_point(old(self).position, alien_margins()),
                ..*old(self)
            }),
            arena.holds(final(self).position, alien_margins()),
            final(self).position.in_world(),
    {
        let margins: Margins = Alien::margins();
        self.position = arena.wrap(self.position, &margins);
    }

    /// Points the aim at where the ship is now. Where the alien is on that
    /// very point there is no direction to aim in, and it has no aim.
    pub fn update_aim(&mut self, ship_position: &Vector2)
        requires
            old(self).wf(),
            ship_position.in_world(),
        ensures
            *final(self) == (Alien {
                aim: old(self).position.heading_to(*ship_position),
                ..*old(self)
            }),
            final(self).wf(),
    {
        self.aim = self.position.direction_to(ship_position);
    }

    /// What the alien fires when the roll for the shot came out as `rolled`.
    pub fn shot(&self, rolled: bool) -> (p: Option<Projectile>)
        requires
            self.wf(),
        ensures
            p == self.fires(rolled),
            p matches Some(projectile) ==> projectile.wf(),
    {
        match self.aim {
            Some(aim) => {
                if rolled {
                    Some(Projectile::new(&self.position, &aim))
                } else {
                    None
                }
            },
            None => None,
        }
    }

    /// Now and then fires a projectile along the aim.
    pub fn shoot(&self, rng: &mut ThreadRng) -> (p: Option<Projectile>)
        requires
            self.wf(),
        ensures
            p == self.fires(true) || p == self.fires(false),
            p matches Some(projectile) ==> projectile.wf(),
    {
        let rolled: bool = roll_ratio(rng, 1, SHOT_ROLLS);
        self.shot(rolled)
    }

    /// Expires the alien once it has stayed for its time, whatever health it
    /// has left. An expired alien stays expired.
    pub fn check_expiration(&mut self, now_time: u64)
        ensures
            *final(self) == old(self).aged(now_time),
            old(self).wf() ==> final(self).wf(),
    {
        if elapsed_ms(self.creation_time, now_time) >= ALIEN_DURATION_MS {
            self.expired = true;
        }
    }

    /// Takes one hit, and says whether it was the one that destroyed the
    /// alien.
    pub fn take_hit(&mut self) -> (destroyed: bool)
        requires
            old(self).wf(),
        ensures
            *final(self) == old(self).hit(),
            destroyed == old(self).dies_of_hit(),
            final(self).wf(),
    {
        if self.health > 0 {
            self.health = self.health - 1;
            if self.health == 0 {
                self.expired = true;
                return true;
            }
        }
        false
    }
}

/// However often the alien moves, it is never left farther outside the
/// arena than it reaches.
pub proof fn lemma_alien_stays_in_reach(alien: Alien, arena: Arena, dt: int)
    requires
        arena.wf(),
    ensures
        arena.holds(alien.moved(arena, dt).position, alien_margins()),
{
}

/// Neither a hit nor the test of its age revives an expired alien, and
/// health never grows.
pub proof fn lemma_alien_expiry_is_final(alien: Alien, now: u64)
    ensures
        alien.expired ==> alien.hit().expired && alien.aged(now).expired,
        alien.hit().health <= alien.health || alien.health < 0,
        alien.aged(now).health == alien.health,
{
}

} // verus!
