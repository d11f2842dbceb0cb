//! Points, directions and the motion shared by everything that moves.

use vstd::prelude::*;

verus! {

/// Position sub-units in one arena unit.
pub const UNIT: i64 = 1_000_000;

/// The direction component that stands for one.
pub const DIRECTION_ONE: i64 = 1_000;

/// No coordinate leaves `-COORD_LIMIT ..= COORD_LIMIT`.
pub const COORD_LIMIT: i64 = 1_000_000_000_000_000_000;

/// The farthest a coordinate moves in one step.
pub const STEP_LIMIT: i64 = 4_294_967_295_000_000;

/// The square of the direction component that stands for one.
pub const UNIT_SQUARE: i64 = 1_000_000;

/// How far the square of the length of a unit direction may lie from the
/// square of one: its components are rounded to thousandths.
pub const UNIT_TOLERANCE: i64 = 3_000;

/// The highest speed, in arena units per second.
pub const SPEED_LIMIT: i64 = 1_000;

/// A point or a direction in the plane.
#[derive(Clone, Copy, Debug, PartialEq, Eq, Structural)]
pub struct Vector2 {
    pub x: i64,
    pub y: i64,
}

/// `v` held to the coordinate range.
pub open spec fn clamped(v: int) -> int {
    if v < -COORD_LIMIT {
        -COORD_LIMIT as int
    } else if v > COORD_LIMIT {
        COORD_LIMIT as int
    } else {
        v
    }
}

/// How far a coordinate moves in `dt` milliseconds at `speed` units per
/// second along a direction component given in thousandths.
pub open spec fn displacement(forward: int, speed: int, dt: int) -> int {
    forward * speed * dt
}

/// `n / d` rounded toward zero, for a positive `d`.
pub open spec fn quotient_toward_zero(n: int, d: int) -> int {
    if n >= 0 {
        n / d
    } else {
        -((-n) / d)
    }
}

/// A coordinate that left `-low_margin ..= bound + high_margin` on one side
/// comes back on the other; one inside stays.
pub open spec fn wrapped(v: int, bound: int, low_margin: int, high_margin: int) -> int {
    if v < -low_margin {
        bound + high_margin
    } else if v > bound + high_margin {
        -low_margin
    } else {
        v
    }
}

/// A product is no larger than the product of the bounds of its factors.
pub proof fn lemma_product_bound(a: int, b: int, a_max: int, b_max: int)
    by (nonlinear_arith)
    requires
        -a_max <= a <= a_max,
        -b_max <= b <= b_max,
    ensures
        -(a_max * b_max) <= a * b <= a_max * b_max,
{
}

/// No step is longer than the longest step.
pub proof fn lemma_displacement_bound(forward: int, speed: int, dt: int)
    requires
        -DIRECTION_ONE <= forward <= DIRECTION_ONE,
        0 <= speed <= SPEED_LIMIT,
        0 <= dt <= u32::MAX,
    ensures
        -STEP_LIMIT <= displacement(forward, speed, dt) <= STEP_LIMIT,
        -1_000_000 <= forward * speed <= 1_000_000,
{
    lemma_product_bound(forward, speed, DIRECTION_ONE as int, SPEED_LIMIT as int);
    lemma_product_bound(forward * speed, dt, 1_000_000, u32::MAX as int);
}

/// The displacement of one coordinate over `dt` milliseconds.
pub fn step(forward: i64, speed: i64, dt: u32) -> (d: i64)
    requires
        -DIRECTION_ONE <= forward <= DIRECTION_ONE,
        0 <= speed <= SPEED_LIMIT,
    ensures
        d == displacement(forward as int, speed as int, dt as int),
        -STEP_LIMIT <= d <= STEP_LIMIT,
{
    proof {
        lemma_displacement_bound(forward as int, speed as int, dt as int);
    }
    let rate: i64 = forward * speed;
    rate * (dt as i64)
}

/// `v` held to the coordinate range.
pub fn clamp_coordinate(v: i64) -> (r: i64)
    ensures
        r == clamped(v as int),
        -COORD_LIMIT <= r <= COORD_LIMIT,
{
    if v < -COORD_LIMIT {
        -COORD_LIMIT
    } else if v > COORD_LIMIT {
        COORD_LIMIT
    } else {
        v
    }
}

/// One coordinate carried across the edges of `0 ..= bound`.
pub fn wrap_coordinate(v: i64, bound: i64, low_margin: i64, high_margin: i64) -> (r: i64)
    requires
        0 <= bound <= COORD_LIMIT,
        0 <= low_margin <= COORD_LIMIT,
        0 <= high_margin <= COORD_LIMIT,
    ensures
        r == wrapped(v as int, bound as int, low_margin as int, high_margin as int),
        -low_margin <= r <= bound + high_margin,
{
    if v < -low_margin {
        bound + high_margin
    } else if v > bound + high_margin {
        -low_margin
    } else {
        v
    }
}

/// `r` is the whole part of the square root of `n`.
pub open spec fn is_root(n: int, r: int) -> bool {
    0 <= r && r * r <= n < (r + 1) * (r + 1)
}

/// The whole part of the square root of `n`.
pub open spec fn root(n: int) -> int {
    choose|r: int| is_root(n, r)
}

/// A number has one whole square root only.
pub proof fn lemma_root_unique(n: int, a: int, b: int)
    by (nonlinear_arith)
    requires
        is_root(n, a),
        is_root(n, b),
    ensures
        a == b,
{
}

/// A side of a right triangle is no longer than the whole part of its
/// longest side.
pub proof fn lemma_side_within_root(a: int, b: int, r: int)
    by (nonlinear_arith)
    requires
        0 <= a,
        is_root(a * a + b * b, r),
    ensures
        a <= r,
        r == 0 ==> a == 0,
{
}

proof fn lemma_square_bound(m: int, top: int)
    by (nonlinear_arith)
    requires
        0 <= m <= top,
    ensures
        m * m <= top * top,
{
}

proof fn lemma_scaled_quotient_bound(a: int, len: int)
    by (nonlinear_arith)
    requires
        0 <= a <= len,
        0 < len,
    ensures
        0 <= (a * 1_000) / len <= 1_000,
{
}

/// Squares below this have their root taken.
pub const ROOT_LIMIT: u128 = 0x1000_0000_0000_0000_0000_0000_0000_0000;

/// The whole part of the square root of `n`.
pub fn integer_root(n: u128) -> (r: u64)
    requires
        n < ROOT_LIMIT,
    ensures
        is_root(n as int, r as int),
        r == root(n as int),
{
    let mut low: u128 = 0;
    let mut high: u128 = 0x4000_0000_0000_0000;
    assert(0x4000_0000_0000_0000u128 * 0x4000_0000_0000_0000u128 == ROOT_LIMIT) by (nonlinear_arith);
    while high - low > 1
        invariant
            low < high <= 0x4000_0000_0000_0000,
            low * low <= n < high * high,
        decreases high - low,
    {
        let middle: u128 = low + (high - low) / 2;
        proof {
            lemma_square_bound(middle as int, 0x4000_0000_0000_0000);
        }
        if middle * middle <= n {
            low = middle;
        } else {
            high = middle;
        }
    }
    proof {
        assert(is_root(n as int, low as int));
        lemma_root_unique(n as int, low as int, root(n as int));
    }
    low as u64
}

/// The size of a number.
pub fn magnitude(v: i64) -> (m: u128)
    requires
        v > i64::MIN,
    ensures
        m == if v < 0 {
            -v
        } else {
            v as int
        },
{
    if v < 0 {
        (-v) as u128
    } else {
        v as u128
    }
}

impl Vector2 {
    /// Both coordinates lie in the coordinate range.
    pub open spec fn in_world(self) -> bool {
        &&& -COORD_LIMIT <= self.x <= COORD_LIMIT
        &&& -COORD_LIMIT <= self.y <= COORD_LIMIT
    }

    /// Both components lie between minus one and one, in thousandths.
    pub open spec fn is_direction(self) -> bool {
        &&& -DIRECTION_ONE <= self.x <= DIRECTION_ONE
        &&& -DIRECTION_ONE <= self.y <= DIRECTION_ONE
    }

    /// The direction is of length one, as nearly as thousandths allow.
    pub open spec fn is_unit(self) -> bool {
        &&& self.is_direction()
        &&& UNIT_SQUARE - UNIT_TOLERANCE <= self.x * self.x + self.y * self.y <= UNIT_SQUARE
            + UNIT_TOLERANCE
    }

    /// The point `dx` to the right of and `dy` below this one, held to the
    /// coordinate range.
    pub open spec fn shifted(self, dx: int, dy: int) -> Vector2 {
        Vector2 { x: clamped(self.x + dx) as i64, y: clamped(self.y + dy) as i64 }
    }

    /// Where a point is after `dt` milliseconds at `speed` along `forward`.
    pub open spec fn advanced(self, forward: Vector2, speed: int, dt: int) -> Vector2 {
        self.shifted(
            displacement(forward.x as int, speed, dt),
            displacement(forward.y as int, speed, dt),
        )
    }

    pub fn new(x: i64, y: i64) -> (v: Vector2)
        ensures
            v == (Vector2 { x, y }),
    {
        Vector2 { x, y }
    }

    /// Whether both coordinates lie in the coordinate range.
    pub fn fits_world(&self) -> (fits: bool)
        ensures
            fits == self.in_world(),
    {
        -COORD_LIMIT <= self.x && self.x <= COORD_LIMIT && -COORD_LIMIT <= self.y && self.y
            <= COORD_LIMIT
    }

    /// Whether both components lie between minus one and one.
    pub fn fits_direction(&self) -> (fits: bool)
        ensures
            fits == self.is_direction(),
    {
        -DIRECTION_ONE <= self.x && self.x <= DIRECTION_ONE && -DIRECTION_ONE <= self.y && self.y
            <= DIRECTION_ONE
    }

    /// Whether the direction is of length one, as nearly as thousandths
    /// allow.
    pub fn fits_unit(&self) -> (fits: bool)
        ensures
            fits == self.is_unit(),
    {
        if !self.fits_direction() {
            return false;
        }
        proof {
            lemma_product_bound(
                self.x as int,
                self.x as int,
                DIRECTION_ONE as int,
                DIRECTION_ONE as int,
            );
            lemma_product_bound(
                self.y as int,
                self.y as int,
                DIRECTION_ONE as int,
                DIRECTION_ONE as int,
            );
        }
        let square: i64 = self.x * self.x + self.y * self.y;
        UNIT_SQUARE - UNIT_TOLERANCE <= square && square <= UNIT_SQUARE + UNIT_TOLERANCE
    }

    /// Moves the point by `(dx, dy)`, stopping at the coordinate range.
    pub fn shift(self, dx: i64, dy: i64) -> (r: Vector2)
        requires
            self.in_world(),
            -STEP_LIMIT <= dx <= STEP_LIMIT,
            -STEP_LIMIT <= dy <= STEP_LIMIT,
        ensures
            r == self.shifted(dx as int, dy as int),
            r.in_world(),
    {
        Vector2 { x: clamp_coordinate(self.x + dx), y: clamp_coordinate(self.y + dy) }
    }

    /// Moves the point for `dt` milliseconds at `speed` units per second
    /// along `forward`.
    pub fn advance(self, forward: Vector2, speed: i64, dt: u32) -> (r: Vector2)
        requires
            self.in_world(),
            forward.is_direction(),
            0 <= speed <= SPEED_LIMIT,
        ensures
            r == self.advanced(forward, speed as int, dt as int),
            r.in_world(),
    {
        self.shift(step(forward.x, speed, dt), step(forward.y, speed, dt))
    }

    /// The direction from this point to `target`, in thousandths and rounded
    /// toward zero; there is none from a point to itself.
    pub open spec fn heading_to(self, target: Vector2) -> Option<Vector2> {
        let dx = target.x - self.x;
        let dy = target.y - self.y;
        let length = root(dx * dx + dy * dy);
        if length == 0 {
            None
        } else {
            Some(
                Vector2 {
                    x: quotient_toward_zero(dx * DIRECTION_ONE, length) as i64,
                    y: quotient_toward_zero(dy * DIRECTION_ONE, length) as i64,
                },
            )
        }
    }

    /// The direction from this point to `target`.
    pub fn direction_to(&self, target: &Vector2) -> (d: Option<Vector2>)
        requires
            self.in_world(),
            target.in_world(),
        ensures
            d == self.heading_to(*target),
            d is None <==> *self == *target,
            d matches Some(v) ==> v.is_direction() && (target.x >= self.x ==> v.x >= 0) && (
            target.x <= self.x ==> v.x <= 0) && (target.y >= self.y ==> v.y >= 0) && (target.y
                <= self.y ==> v.y <= 0),
    {
        let dx: i64 = target.x - self.x;
        let dy: i64 = target.y - self.y;
        let ax: u128 = magnitude(dx);
        let ay: u128 = magnitude(dy);
        proof {
            lemma_square_bound(ax as int, 2_000_000_000_000_000_000);
            lemma_square_bound(ay as int, 2_000_000_000_000_000_000);
            assert(ax * ax == dx * dx) by (nonlinear_arith)
                requires
                    ax == dx || ax == -dx,
            ;
            assert(ay * ay == dy * dy) by (nonlinear_arith)
                requires
                    ay == dy || ay == -dy,
            ;
        }
        let square: u128 = ax * ax + ay * ay;
        let length: u128 = integer_root(square) as u128;
        proof {
            lemma_side_within_root(ax as int, ay as int, length as int);
            assert(ay * ay + ax * ax == ax * ax + ay * ay);
            lemma_side_within_root(ay as int, ax as int, length as int);
        }
        if length == 0 {
            return None;
        }
        proof {
            lemma_scaled_quotient_bound(ax as int, length as int);
            lemma_scaled_quotient_bound(ay as int, length as int);
            assert(length > 0 ==> (dx != 0 || dy != 0)) by (nonlinear_arith)
                requires
                    is_root(dx * dx + dy * dy, length as int),
            ;
        }
        let cx: i64 = ((ax * 1_000) / length) as i64;
        let cy: i64 = ((ay * 1_000) / length) as i64;
        let x: i64 = if dx < 0 {
            -cx
        } else {
            cx
        };
        let y: i64 = if dy < 0 {
            -cy
        } else {
            cy
        };
        Some(Vector2 { x, y })
    }
}

} // verus!
