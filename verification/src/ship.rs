//! The player's ship: thrust and friction, rotation, firing, damage and the
//! time of immunity that follows it.

use vstd::prelude::*;
use crate::arena::{Arena, Margins};
use crate::clock::{elapsed, elapsed_ms};
use crate::projectile::Projectile;
use crate::vector::{
    lemma_product_bound,
    quotient_toward_zero,
    Vector2,
    DIRECTION_ONE,
    STEP_LIMIT,
};

verus! {

/// What a second without thrust takes off each thrust component.
pub const FRICTION: i64 = 300;

/// The ship's speed at full thrust, in arena units per second.
pub const SPEED: i64 = 350;

/// The angle that the ship turns in a millisecond, in thousandths of a degree.
pub const ROTATION_RATE: i64 = 270;

/// A full turn, in thousandths of a degree.
pub const FULL_TURN: i64 = 360_000;

/// The thrust component that stands for one.
pub const THRUST_ONE: i64 = 1_000_000;

/// How fast thrust builds up.
pub const THRUST_GAIN: i64 = 2;

pub const STARTING_HEALTH: i32 = 5;

/// How long the ship is immune after it was damaged, in milliseconds.
pub const IMMUNITY_MS: u64 = 5_000;

/// No corner of the hull is farther than this from the ship's position on
/// either axis, in whole arena units.
pub const HULL_REACH: i64 = 25;

#[allow(non_camel_case_types)]
#[derive(Clone, Copy, Debug, PartialEq, Eq, Structural)]
pub enum RotationDirection {
    LEFT,
    RIGHT,
}

/// An upright rectangle, from its corner with the least coordinates to the
/// one with the greatest.
#[derive(Clone, Copy, Debug, PartialEq, Eq, Structural)]
pub struct Rect {
    pub min: Vector2,
    pub max: Vector2,
}

#[derive(Clone, Copy, Debug, PartialEq, Eq, Structural)]
pub struct Ship {
    /// The box around the hull as it stood when it was last updated.
    pub collision_rect_ranges: Rect,
    pub position: Vector2,
    /// The heading as an angle, in thousandths of a degree.
    pub rotation: i64,
    /// The heading as a direction: cosine and sine of `rotation`.
    pub forward: Vector2,
    pub thrust: Vector2,
    pub thrusting: bool,
    pub health: i32,
    pub immune: bool,
    pub immune_instant: u64,
}

/// A thrust component held between minus one and one.
pub open spec fn held(t: int) -> int {
    if t > THRUST_ONE {
        THRUST_ONE as int
    } else if t < -THRUST_ONE {
        -THRUST_ONE as int
    } else {
        t
    }
}

/// A thrust component after `dt` milliseconds of thrust along a heading
/// component.
pub open spec fn pushed(thrust: int, forward: int, dt: int) -> int {
    held(thrust + forward * dt * THRUST_GAIN)
}

/// A thrust component after `dt` milliseconds of friction: nearer to zero,
/// and never past it.
pub open spec fn slowed(thrust: int, dt: int) -> int {
    if thrust > 0 {
        if thrust - FRICTION * dt > 0 {
            thrust - FRICTION * dt
        } else {
            0
        }
    } else if thrust < 0 {
        if thrust + FRICTION * dt < 0 {
            thrust + FRICTION * dt
        } else {
            0
        }
    } else {
        0
    }
}

/// How far a thrust component carries the ship in `dt` milliseconds.
pub open spec fn drift(thrust: int, dt: int) -> int {
    quotient_toward_zero(thrust * SPEED * dt, 1_000)
}

/// The angle after `dt` milliseconds of turning, within one full turn.
pub open spec fn turned(rotation: int, direction: RotationDirection, dt: int) -> int {
    match direction {
        RotationDirection::LEFT => (rotation - ROTATION_RATE * dt) % (FULL_TURN as int),
        RotationDirection::RIGHT => (rotation + ROTATION_RATE * dt) % (FULL_TURN as int),
    }
}

/// Where a corner of the hull lies from the ship's position. The corner is
/// given in whole arena units for a ship that heads down the screen, and is
/// turned with the heading.
pub open spec fn hull_offset(corner: Vector2, forward: Vector2) -> Vector2 {
    Vector2 {
        x: ((corner.x * forward.y + corner.y * forward.x) * 1_000) as i64,
        y: ((corner.y * forward.y - corner.x * forward.x) * 1_000) as i64,
    }
}

/// The corner of the hull at `corner`, for a ship at `position`.
pub open spec fn hull_point(position: Vector2, corner: Vector2, forward: Vector2) -> Vector2 {
    position.shifted(
        hull_offset(corner, forward).x as int,
        hull_offset(corner, forward).y as int,
    )
}

/// The three corners of the hull.
pub open spec fn hull(position: Vector2, forward: Vector2) -> Seq<Vector2> {
    seq![
        hull_point(position, Vector2 { x: -20i64, y: -25i64 }, forward),
        hull_point(position, Vector2 { x: 20i64, y: -25i64 }, forward),
        hull_point(position, Vector2 { x: 0i64, y: 25i64 }, forward),
    ]
}

pub open spec fn least(a: int, b: int, c: int) -> int {
    if a <= b && a <= c {
        a
    } else if b <= c {
        b
    } else {
        c
    }
}

pub open spec fn greatest(a: int, b: int, c: int) -> int {
    if a >= b && a >= c {
        a
    } else if b >= c {
        b
    } else {
        c
    }
}

/// The smallest upright rectangle that holds three points.
pub open spec fn bounding_rect(points: Seq<Vector2>) -> Rect {
    Rect {
        min: Vector2 {
            x: least(points[0].x as int, points[1].x as int, points[2].x as int) as i64,
            y: least(points[0].y as int, points[1].y as int, points[2].y as int) as i64,
        },
        max: Vector2 {
            x: greatest(points[0].x as int, points[1].x as int, points[2].x as int) as i64,
            y: greatest(points[0].y as int, points[1].y as int, points[2].y as int) as i64,
        },
    }
}

impl Rect {
    /// The point lies in the rectangle, edges included.
    pub open spec fn holds(self, p: Vector2) -> bool {
        &&& self.min.x <= p.x <= self.max.x
        &&& self.min.y <= p.y <= self.max.y
    }
}

proof fn lemma_hull_offset_bound(corner: Vector2, forward: Vector2)
    requires
        -HULL_REACH <= corner.x <= HULL_REACH,
        -HULL_REACH <= corner.y <= HULL_REACH,
        forward.is_direction(),
    ensures
        -25_000 <= corner.x * forward.y <= 25_000,
        -25_000 <= corner.y * forward.x <= 25_000,
        -25_000 <= corner.y * forward.y <= 25_000,
        -25_000 <= corner.x * forward.x <= 25_000,
{
    lemma_product_bound(corner.x as int, forward.y as int, HULL_REACH as int, DIRECTION_ONE as int);
    lemma_product_bound(corner.y as int, forward.x as int, HULL_REACH as int, DIRECTION_ONE as int);
    lemma_product_bound(corner.y as int, forward.y as int, HULL_REACH as int, DIRECTION_ONE as int);
    lemma_product_bound(corner.x as int, forward.x as int, HULL_REACH as int, DIRECTION_ONE as int);
}

proof fn lemma_push_bound(forward: int, dt: int)
    requires
        -DIRECTION_ONE <= forward <= DIRECTION_ONE,
        0 <= dt <= u32::MAX,
    ensures
        -4_294_967_295_000 <= forward * dt <= 4_294_967_295_000,
{
    lemma_product_bound(forward, dt, DIRECTION_ONE as int, u32::MAX as int);
}

proof fn lemma_drift_bound(thrust: int, dt: int)
    requires
        -THRUST_ONE <= thrust <= THRUST_ONE,
        0 <= dt <= u32::MAX,
    ensures
        -1_503_238_553_250_000_000 <= thrust * SPEED * dt <= 1_503_238_553_250_000_000,
        -STEP_LIMIT <= drift(thrust, dt) <= STEP_LIMIT,
{
    lemma_product_bound(thrust * SPEED, dt, 350_000_000, u32::MAX as int);
}

impl Ship {
    pub open spec fn wf(self) -> bool {
        &&& self.position.in_world()
        &&& self.forward.is_unit()
        &&& -THRUST_ONE <= self.thrust.x <= THRUST_ONE
        &&& -THRUST_ONE <= self.thrust.y <= THRUST_ONE
        &&& 0 <= self.rotation < FULL_TURN
        &&& 0 <= self.health
    }

    /// The ship at the start of a session: in the middle of the arena, at
    /// rest, heading up the screen, unharmed.
    pub open spec fn launched(arena: Arena, now: u64) -> Ship {
        let forward = Vector2 { x: 0, y: (-DIRECTION_ONE) as i64 };
        Ship {
            collision_rect_ranges: bounding_rect(hull(arena.middle(), forward)),
            position: arena.middle(),
            rotation: 270_000,
            forward,
            thrust: Vector2 { x: 0, y: 0 },
            thrusting: false,
            health: STARTING_HEALTH,
            immune: false,
            immune_instant: now,
        }
    }

    /// The ship after one hit: a point of health less, though never less
    /// than none, and immune from `now` on.
    pub open spec fn damaged(self, now: u64) -> Ship {
        Ship {
            health: if self.health > 0 {
                (self.health - 1) as i32
            } else {
                0
            },
            immune: true,
            immune_instant: now,
            ..self
        }
    }

    /// The ship after `dt` milliseconds of thrust along its heading.
    pub open spec fn thrusted(self, dt: int) -> Ship {
        Ship {
            thrust: Vector2 {
                x: pushed(self.thrust.x as int, self.forward.x as int, dt) as i64,
                y: pushed(self.thrust.y as int, self.forward.y as int, dt) as i64,
            },
            ..self
        }
    }

    /// The ship after `dt` milliseconds of friction.
    pub open spec fn coasted(self, dt: int) -> Ship {
        Ship {
            thrust: Vector2 {
                x: slowed(self.thrust.x as int, dt) as i64,
                y: slowed(self.thrust.y as int, dt) as i64,
            },
            ..self
        }
    }

    /// The ship after `dt` milliseconds of turning, when `heading` is the
    /// direction of its new angle.
    pub open spec fn rotated(self, direction: RotationDirection, dt: int, heading: Vector2) -> Ship {
        Ship { rotation: turned(self.rotation as int, direction, dt) as i64, forward: heading, ..self }
    }

    /// The ship with its collision box put around the hull as it stands.
    pub open spec fn boxed(self) -> Ship {
        Ship { collision_rect_ranges: bounding_rect(hull(self.position, self.forward)), ..self }
    }

    /// The ship at `now`: no longer immune once the immunity has lasted
    /// longer than its time.
    pub open spec fn rested(self, now: u64) -> Ship {
        Ship {
            immune: self.immune && elapsed(self.immune_instant as int, now as int) <= IMMUNITY_MS,
            ..self
        }
    }

    /// Whether the ship is well formed.
    pub fn is_valid(&self) -> (valid: bool)
        ensures
            valid == self.wf(),
    {
        self.position.fits_world() && self.forward.fits_unit() && -THRUST_ONE
            <= self.thrust.x && self.thrust.x <= THRUST_ONE && -THRUST_ONE <= self.thrust.y
            && self.thrust.y <= THRUST_ONE && 0 <= self.rotation && self.rotation < FULL_TURN && 0
            <= self.health
    }

    pub fn new(arena: &Arena, now: u64) -> (ship: Ship)
        requires
            arena.wf(),
        ensures
            ship == Ship::launched(*arena, now),
            ship.wf(),
    {
        let position: Vector2 = arena.center();
        let forward: Vector2 = Vector2 { x: 0, y: -DIRECTION_ONE };
        assert(forward.is_unit()) by (nonlinear_arith)
            requires
                forward.x == 0,
                forward.y == -1_000,
        ;
        let triangle_points: [Vector2; 3] = Ship::get_triangle_points(&position, &forward);
        Ship {
            collision_rect_ranges: Ship::get_collision_rect_ranges(&triangle_points),
            position,
            rotation: 270_000,
            forward,
            thrust: Vector2 { x: 0, y: 0 },
            thrusting: false,
            health: STARTING_HEALTH,
            immune: false,
            immune_instant: now,
        }
    }

    /// Builds up thrust along the heading for `dt` milliseconds; each
    /// component stays between minus one and one.
    pub fn apply_thrust(&mut self, dt: u32)
        requires
            old(self).wf(),
        ensures
            *final(self) == old(self).thrusted(dt as int),
            final(self).wf(),
    {
        proof {
            lemma_push_bound(self.forward.x as int, dt as int);
            lemma_push_bound(self.forward.y as int, dt as int);
        }
        let x: i64 = self.thrust.x + self.forward.x * (dt as i64) * THRUST_GAIN;
        let y: i64 = self.thrust.y + self.forward.y * (dt as i64) * THRUST_GAIN;
        self.thrust = Vector2 { x: Ship::hold(x), y: Ship::hold(y) };
    }

    /// A thrust component held between minus one and one.
    pub fn hold(t: i64) -> (r: i64)
        ensures
            r == held(t as int),
            -THRUST_ONE <= r <= THRUST_ONE,
    {
        if t > THRUST_ONE {
            THRUST_ONE
        } else if t < -THRUST_ONE {
            -THRUST_ONE
        } else {
            t
        }
    }

    /// A thrust component after `dt` milliseconds of friction.
    pub fn slow(t: i64, dt: u32) -> (r: i64)
        requires
            -THRUST_ONE <= t <= THRUST_ONE,
        ensures
            r == slowed(t as int, dt as int),
            -THRUST_ONE <= r <= THRUST_ONE,
    {
        let loss: i64 = FRICTION * (dt as i64);
        if t > 0 {
            if t - loss > 0 {
                t - loss
            } else {
                0
            }
        } else if t < 0 {
            if t + loss < 0 {
                t + loss
            } else {
                0
            }
        } else {
            0
        }
    }

    /// Lets friction wear the thrust down for `dt` milliseconds: each
    /// component comes nearer to zero and stops there.
    pub fn apply_friction(&mut self, dt: u32)
        requires
            old(self).wf(),
        ensures
            *final(self) == old(self).coasted(dt as int),
            final(self).wf(),
    {
        self.thrust = Vector2 { x: Ship::slow(self.thrust.x, dt), y: Ship::slow(self.thrust.y, dt) };
    }

    /// How far a thrust component carries the ship in `dt` milliseconds.
    pub fn drift_of(thrust: i64, dt: u32) -> (d: i64)
        requires
            -THRUST_ONE <= thrust <= THRUST_ONE,
        ensures
            d == drift(thrust as int, dt as int),
            -STEP_LIMIT <= d <= STEP_LIMIT,
    {
        proof {
            lemma_drift_bound(thrust as int, dt as int);
        }
        let rate: i64 = thrust * SPEED;
        (rate * (dt as i64)) / 1_000
    }

    /// Where the ship is after `dt` milliseconds: carried by its thrust, and
    /// across an edge of the arena to the opposite one.
    pub open spec fn moved(self, arena: Arena, dt: int) -> Ship {
        Ship {
            position: arena.wrapped_point(
                self.position.shifted(drift(self.thrust.x as int, dt), drift(self.thrust.y as int, dt)),
                Margins::even(0),
            ),
            ..self
        }
    }

    /// Moves the ship for `dt` milliseconds and wraps it.
    pub fn move_forward(&mut self, arena: &Arena, dt: u32)
        requires
            old(self).wf(),
            arena.wf(),
        ensures
            *final(self) == old(self).moved(*arena, dt as int),
            final(self).wf(),
            arena.contains(final(self).position),
    {
        self.position = self.position.shift(
            Ship::drift_of(self.thrust.x, dt),
            Ship::drift_of(self.thrust.y, dt),
        );
        self.clamp_position(arena);
    }

    /// The angle after `dt` milliseconds of turning.
    pub fn next_rotation(rotation: i64, rotation_direction: RotationDirection, dt: u32) -> (r: i64)
        requires
            0 <= rotation < FULL_TURN,
        ensures
            r == turned(rotation as int, rotation_direction, dt as int),
            0 <= r < FULL_TURN,
    {
        let swing: i64 = ROTATION_RATE * (dt as i64);
        match rotation_direction {
            RotationDirection::LEFT => {
                let rest: i64 = (rotation - swing) % FULL_TURN;
                if rest < 0 {
                    rest + FULL_TURN
                } else {
                    rest
                }
            },
            RotationDirection::RIGHT => (rotation + swing) % FULL_TURN,
        }
    }

    /// Turns the ship for `dt` milliseconds. `heading` is the direction of
    /// the new angle, its cosine and sine in thousandths: the caller works
    /// them out from `next_rotation`.
    pub fn rotate(&mut self, rotation_direction: RotationDirection, dt: u32, heading: Vector2)
        requires
            old(self).wf(),
            heading.is_unit(),
        ensures
            *final(self) == old(self).rotated(rotation_direction, dt as int, heading),
            final(self).wf(),
    {
        self.rotation = Ship::next_rotation(self.rotation, rotation_direction, dt);
        self.forward = heading;
    }

    /// A projectile that leaves the ship along its heading.
    pub fn shoot(&self) -> (p: Projectile)
        requires
            self.wf(),
        ensures
            p == Projectile::fired(self.position, self.forward),
            p.wf(),
    {
        Projectile::new(&self.position, &self.forward)
    }

    /// Puts the collision box around the hull as it stands now.
    pub fn update_collision_rect(&mut self)
        requires
            old(self).wf(),
        ensures
            *final(self) == old(self).boxed(),
            final(self).wf(),
    {
        let triangle_points: [Vector2; 3] = Ship::get_triangle_points(&self.position, &self.forward);
        self.collision_rect_ranges = Ship::get_collision_rect_ranges(&triangle_points);
    }

    /// Holds each thrust component between minus one and one.
    pub fn clamp_thrust(&mut self)
        ensures
            *final(self) == (Ship {
                thrust: Vector2 {
                    x: held(old(self).thrust.x as int) as i64,
                    y: held(old(self).thrust.y as int) as i64,
                },
                ..*old(self)
            }),
    {
        self.thrust = Vector2 { x: Ship::hold(self.thrust.x), y: Ship::hold(self.thrust.y) };
    }

    /// Carries a ship that left the arena to the opposite edge.
    pub fn clamp_position(&mut self, arena: &Arena)
        requires
            arena.wf(),
        ensures
            *final(self) == (Ship {
                position: arena.wrapped_point(old(self).position, Margins::even(0)),
                ..*old(self)
            }),
            arena.contains(final(self).position),
            final(self).position.in_world(),
    {
        let margins: Margins = Margins::uniform(0);
        self.position = arena.wrap(self.position, &margins);
    }

    /// The smallest upright rectangle that holds the three points.
    pub fn get_collision_rect_ranges(triangle_points: &[Vector2; 3]) -> (rect: Rect)
        ensures
            rect == bounding_rect(triangle_points@),
            rect.holds(triangle_points@[0]),
            rect.holds(triangle_points@[1]),
            rect.holds(triangle_points@[2]),
    {
        let mut min_x: i64 = triangle_points[0].x;
        let mut max_x: i64 = triangle_points[0].x;
        let mut min_y: i64 = triangle_points[0].y;
        let mut max_y: i64 = triangle_points[0].y;
        let mut i: usize = 1;
        while i < 3
            invariant
                1 <= i <= 3,
                i == 1 ==> min_x == triangle_points@[0].x && max_x == triangle_points@[0].x
                    && min_y == triangle_points@[0].y && max_y == triangle_points@[0].y,
                i == 2 ==> min_x == least(
                    triangle_points@[0].x as int,
                    triangle_points@[1].x as int,
                    triangle_points@[1].x as int,
                ) && max_x == greatest(
                    triangle_points@[0].x as int,
                    triangle_points@[1].x as int,
                    triangle_points@[1].x as int,
                ) && min_y == least(
                    triangle_points@[0].y as int,
                    triangle_points@[1].y as int,
                    triangle_points@[1].y as int,
                ) && max_y == greatest(
                    triangle_points@[0].y as int,
                    triangle_points@[1].y as int,
                    triangle_points@[1].y as int,
                ),
                i == 3 ==> min_x == least(
                    triangle_points@[0].x as int,
                    triangle_points@[1].x as int,
                    triangle_points@[2].x as int,
                ) && max_x == greatest(
                    triangle_points@[0].x as int,
                    triangle_points@[1].x as int,
                    triangle_points@[2].x as int,
                ) && min_y == least(
                    triangle_points@[0].y as int,
                    triangle_points@[1].y as int,
                    triangle_points@[2].y as int,
                ) && max_y == greatest(
                    triangle_points@[0].y as int,
                    triangle_points@[1].y as int,
                    triangle_points@[2].y as int,
                ),
            decreases 3 - i,
        {
            let point: Vector2 = triangle_points[i];
            if point.x < min_x {
                min_x = point.x;
            }
            if point.x > max_x {
                max_x = point.x;
            }
            if point.y < min_y {
                min_y = point.y;
            }
            if point.y > max_y {
                max_y = point.y;
            }
            i = i + 1;
        }
        Rect { min: Vector2 { x: min_x, y: min_y }, max: Vector2 { x: max_x, y: max_y } }
    }

    /// The three corners of the hull of a ship at `position` that heads
    /// along `forward`.
    pub fn get_triangle_points(position: &Vector2, forward: &Vector2) -> (points: [Vector2; 3])
        requires
            position.in_world(),
            forward.is_direction(),
        ensures
            points@ == hull(*position, *forward),
    {
        let left: Vector2 = Ship::rotate_point(Vector2 { x: -20, y: -25 }, forward);
        let right: Vector2 = Ship::rotate_point(Vector2 { x: 20, y: -25 }, forward);
        let nose: Vector2 = Ship::rotate_point(Vector2 { x: 0, y: 25 }, forward);
        let points: [Vector2; 3] = [
            position.shift(left.x, left.y),
            position.shift(right.x, right.y),
            position.shift(nose.x, nose.y),
        ];
        assert(points@ =~= hull(*position, *forward));
        points
    }

    /// Turns a corner of the hull with the heading: the corner is given in
    /// whole arena units, what comes back is in position sub-units.
    pub fn rotate_point(triangle_point: Vector2, forward: &Vector2) -> (offset: Vector2)
        requires
            -HULL_REACH <= triangle_point.x <= HULL_REACH,
            -HULL_REACH <= triangle_point.y <= HULL_REACH,
            forward.is_direction(),
        ensures
            offset == hull_offset(triangle_point, *forward),
            -50_000_000 <= offset.x <= 50_000_000,
            -50_000_000 <= offset.y <= 50_000_000,
    {
        proof {
            lemma_hull_offset_bound(triangle_point, *forward);
        }
        let x_rotation: i64 = triangle_point.x * forward.y + triangle_point.y * forward.x;
        let y_rotation: i64 = triangle_point.y * forward.y - triangle_point.x * forward.x;
        Vector2 { x: x_rotation * 1_000, y: y_rotation * 1_000 }
    }

    /// Ends the immunity once it has lasted longer than its time.
    pub fn handle_immune_timeout(&mut self, now: u64)
        ensures
            *final(self) == old(self).rested(now),
            old(self).wf() ==> final(self).wf(),
    {
        if self.immune && elapsed_ms(self.immune_instant, now) > IMMUNITY_MS {
            self.immune = false;
        }
    }

    /// Takes one hit: a point of health, and immunity from `now` on.
    pub fn take_damage(&mut self, now: u64)
        requires
            old(self).wf(),
        ensures
            *final(self) == old(self).damaged(now),
            final(self).wf(),
    {
        if self.health > 0 {
            self.health = self.health - 1;
        }
        self.immune = true;
        self.immune_instant = now;
    }
}

/// However often the ship moves, it is never left outside the arena.
pub proof fn lemma_ship_stays_in_arena(ship: Ship, arena: Arena, dt: int)
    requires
        arena.wf(),
    ensures
        arena.contains(ship.moved(arena, dt).position),
{
}

/// Thrust and friction keep each thrust component between minus one and
/// one, and friction never turns a component around.
pub proof fn lemma_thrust_stays_held(thrust: int, forward: int, dt: int)
    requires
        -THRUST_ONE <= thrust <= THRUST_ONE,
        0 <= dt,
    ensures
        -THRUST_ONE <= pushed(thrust, forward, dt) <= THRUST_ONE,
        -THRUST_ONE <= slowed(thrust, dt) <= THRUST_ONE,
        thrust >= 0 ==> 0 <= slowed(thrust, dt) <= thrust,
        thrust <= 0 ==> thrust <= slowed(thrust, dt) <= 0,
{
}

} // verus!
