//! The rectangle in which the game takes place, and how entities cross its
//! edges.

use vstd::prelude::*;
use crate::vector::{clamped, wrap_coordinate, wrapped, Vector2, UNIT};

verus! {

/// The widest and tallest arena, in position sub-units.
pub const ARENA_LIMIT: i64 = 4_294_967_295_000_000;

/// The widest margin an entity wraps with, in position sub-units.
pub const MARGIN_LIMIT: i64 = 1_000_000_000;

/// The arena spans `0 ..= width` by `0 ..= height`, in position sub-units.
#[derive(Clone, Copy, Debug, PartialEq, Eq, Structural)]
pub struct Arena {
    pub width: i64,
    pub height: i64,
}

/// How far past each edge an entity travels before it comes back on the
/// opposite side.
#[derive(Clone, Copy, Debug, PartialEq, Eq, Structural)]
pub struct Margins {
    pub left: i64,
    pub right: i64,
    pub top: i64,
    pub bottom: i64,
}

impl Margins {
    pub open spec fn wf(self) -> bool {
        &&& 0 <= self.left <= MARGIN_LIMIT
        &&& 0 <= self.right <= MARGIN_LIMIT
        &&& 0 <= self.top <= MARGIN_LIMIT
        &&& 0 <= self.bottom <= MARGIN_LIMIT
    }

    pub open spec fn even(margin: int) -> Margins {
        Margins {
            left: margin as i64,
            right: margin as i64,
            top: margin as i64,
            bottom: margin as i64,
        }
    }

    /// The same margin on every side.
    pub fn uniform(margin: i64) -> (m: Margins)
        requires
            0 <= margin <= MARGIN_LIMIT,
        ensures
            m == Margins::even(margin as int),
            m.wf(),
    {
        Margins { left: margin, right: margin, top: margin, bottom: margin }
    }
}

impl Arena {
    pub open spec fn wf(self) -> bool {
        &&& 0 <= self.width <= ARENA_LIMIT
        &&& 0 <= self.height <= ARENA_LIMIT
    }

    /// The point lies in the arena or no farther outside than the margins.
    pub open spec fn holds(self, p: Vector2, m: Margins) -> bool {
        &&& -m.left <= p.x <= self.width + m.right
        &&& -m.top <= p.y <= self.height + m.bottom
    }

    /// The point lies in the arena, edges included.
    pub open spec fn contains(self, p: Vector2) -> bool {
        &&& 0 <= p.x <= self.width
        &&& 0 <= p.y <= self.height
    }

    /// The point after each coordinate that passed a margin has been carried
    /// to the opposite side.
    pub open spec fn wrapped_point(self, p: Vector2, m: Margins) -> Vector2 {
        Vector2 {
            x: wrapped(p.x as int, self.width as int, m.left as int, m.right as int) as i64,
            y: wrapped(p.y as int, self.height as int, m.top as int, m.bottom as int) as i64,
        }
    }

    pub open spec fn middle(self) -> Vector2 {
        Vector2 { x: (self.width / 2) as i64, y: (self.height / 2) as i64 }
    }

    /// Whether the arena is well formed.
    pub fn is_valid(&self) -> (valid: bool)
        ensures
            valid == self.wf(),
    {
        0 <= self.width && self.width <= ARENA_LIMIT && 0 <= self.height && self.height
            <= ARENA_LIMIT
    }

    /// An arena of `width` by `height` whole units.
    pub fn new(width: u32, height: u32) -> (arena: Arena)
        ensures
            arena.width == width * UNIT,
            arena.height == height * UNIT,
            arena.wf(),
    {
        Arena { width: (width as i64) * UNIT, height: (height as i64) * UNIT }
    }

    /// The arena of the size of the screen.
    pub fn standard() -> (arena: Arena)
        ensures
            arena.width == crate::constants::SCREEN_SIZE * UNIT,
            arena.height == crate::constants::SCREEN_SIZE * UNIT,
            arena.wf(),
    {
        Arena::new(crate::constants::SCREEN_SIZE, crate::constants::SCREEN_SIZE)
    }

    /// The point in the middle of the arena.
    pub fn center(&self) -> (c: Vector2)
        requires
            self.wf(),
        ensures
            c == self.middle(),
            self.contains(c),
            c.in_world(),
    {
        Vector2 { x: self.width / 2, y: self.height / 2 }
    }

    /// Whether the point lies in the arena, edges included.
    pub fn is_inside(&self, p: &Vector2) -> (inside: bool)
        ensures
            inside == self.contains(*p),
    {
        0 <= p.x && p.x <= self.width && 0 <= p.y && p.y <= self.height
    }

    /// Carries a point that passed a margin to the opposite side.
    pub fn wrap(&self, p: Vector2, m: &Margins) -> (r: Vector2)
        requires
            self.wf(),
            m.wf(),
        ensures
            r == self.wrapped_point(p, *m),
            self.holds(r, *m),
            r.in_world(),
    {
        Vector2 {
            x: wrap_coordinate(p.x, self.width, m.left, m.right),
            y: wrap_coordinate(p.y, self.height, m.top, m.bottom),
        }
    }
}

/// A point held by the arena and its margins is not moved by wrapping.
pub proof fn lemma_wrap_keeps_held_point(arena: Arena, p: Vector2, m: Margins)
    requires
        arena.holds(p, m),
    ensures
        arena.wrapped_point(p, m) == p,
{
}

/// Wrapping always lands in the arena or its margins, so however often an
/// entity is advanced and wrapped it is never left outside them.
pub proof fn lemma_wrap_holds(arena: Arena, p: Vector2, m: Margins)
    requires
        arena.wf(),
        m.wf(),
    ensures
        arena.holds(arena.wrapped_point(p, m), m),
{
}

/// A point that crossed the right or the left margin reappears on the
/// opposite margin; while its other coordinate is inside, that one is kept.
pub proof fn lemma_wrap_crosses_horizontally(arena: Arena, p: Vector2, m: Margins)
    requires
        arena.wf(),
        m.wf(),
        -m.top <= p.y <= arena.height + m.bottom,
    ensures
        p.x > arena.width + m.right ==> arena.wrapped_point(p, m) == (Vector2 {
            x: (-m.left) as i64,
            y: p.y,
        }),
        p.x < -m.left ==> arena.wrapped_point(p, m) == (Vector2 {
            x: (arena.width + m.right) as i64,
            y: p.y,
        }),
{
}

/// A point that crossed the bottom or the top margin reappears on the
/// opposite margin; while its other coordinate is inside, that one is kept.
pub proof fn lemma_wrap_crosses_vertically(arena: Arena, p: Vector2, m: Margins)
    requires
        arena.wf(),
        m.wf(),
        -m.left <= p.x <= arena.width + m.right,
    ensures
        p.y > arena.height + m.bottom ==> arena.wrapped_point(p, m) == (Vector2 {
            x: p.x,
            y: (-m.top) as i64,
        }),
        p.y < -m.top ==> arena.wrapped_point(p, m) == (Vector2 {
            x: p.x,
            y: (arena.height + m.bottom) as i64,
        }),
{
}

/// Inside an arena and its margins one step never reaches the coordinate
/// range, so shifting a point there is plain addition.
pub proof fn lemma_shift_is_exact(arena: Arena, p: Vector2, m: Margins, dx: int, dy: int)
    requires
        arena.wf(),
        m.wf(),
        arena.holds(p, m),
        -crate::vector::STEP_LIMIT <= dx <= crate::vector::STEP_LIMIT,
        -crate::vector::STEP_LIMIT <= dy <= crate::vector::STEP_LIMIT,
    ensures
        p.shifted(dx, dy) == (Vector2 { x: (p.x + dx) as i64, y: (p.y + dy) as i64 }),
        clamped(p.x + dx) == p.x + dx,
        clamped(p.y + dy) == p.y + dy,
{
}

} // verus!
