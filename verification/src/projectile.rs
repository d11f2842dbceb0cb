//! Projectiles fly straight and expire once they have left the arena.

use vstd::prelude::*;
use crate::arena::Arena;
use crate::vector::Vector2;

verus! {

pub const PROJECTILE_RADIUS: i64 = 5_000_000;

pub const PROJECTILE_SPEED: i64 = 1_000;

#[derive(Clone, Copy, Debug, PartialEq, Eq, Structural)]
pub struct Projectile {
    pub position: Vector2,
    pub forward: Vector2,
    pub speed: i64,
    pub expired: bool,
}

impl Projectile {
    pub open spec fn wf(self) -> bool {
        &&& self.position.in_world()
        &&& self.forward.is_direction()
        &&& self.speed == PROJECTILE_SPEED
    }

    /// The projectile that has just been fired from `origin` along `forward`.
    pub open spec fn fired(origin: Vector2, forward: Vector2) -> Projectile {
        Projectile { position: origin, forward, speed: PROJECTILE_SPEED, expired: false }
    }

    /// The projectile after `dt` milliseconds of flight.
    pub open spec fn moved(self, dt: int) -> Projectile {
        Projectile { position: self.position.advanced(self.forward, self.speed as int, dt), ..self }
    }

    /// The projectile after the test of whether it has left the arena.
    pub open spec fn bounded(self, arena: Arena) -> Projectile {
        Projectile { expired: self.expired || !arena.contains(self.position), ..self }
    }

    /// Whether the projectile is well formed.
    pub fn is_valid(&self) -> (valid: bool)
        ensures
            valid == self.wf(),
    {
        self.position.fits_world() && self.forward.fits_direction() && self.speed
            == PROJECTILE_SPEED
    }

    pub fn new(origin: &Vector2, forward: &Vector2) -> (p: Projectile)
        requires
            origin.in_world(),
            forward.is_direction(),
        ensures
            p == Projectile::fired(*origin, *forward),
            p.wf(),
    {
        Projectile { position: *origin, forward: *forward, speed: PROJECTILE_SPEED, expired: false }
    }

    /// Moves the projectile for `dt` milliseconds. It does not wrap.
    pub fn move_forward(&mut self, dt: u32)
        requires
            old(self).wf(),
        ensures
            *final(self) == old(self).moved(dt as int),
            final(self).wf(),
    {
        self.position = self.position.advance(self.forward, self.speed, dt);
    }

    /// Expires the projectile where a coordinate lies outside the arena. An
    /// expired projectile stays expired.
    pub fn set_out_of_bounds(&mut self, arena: &Arena)
        ensures
            *final(self) == old(self).bounded(*arena),
            old(self).wf() ==> final(self).wf(),
    {
        if !arena.is_inside(&self.position) {
            self.expired = true;
        }
    }
}

/// Neither flying on nor the test against the arena revives an expired
/// projectile, and the test expires every projectile that is outside.
pub proof fn lemma_expiry_is_final(p: Projectile, arena: Arena, dt: int)
    ensures
        p.expired ==> p.moved(dt).expired,
        p.expired ==> p.bounded(arena).expired,
        !arena.contains(p.position) ==> p.bounded(arena).expired,
        p.bounded(arena).expired <==> p.expired || !arena.contains(p.position),
{
}

} // verus!
