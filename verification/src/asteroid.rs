//! Asteroids: three sizes, each with its own radius and speed; a destroyed
//! one that is not of the smallest size breaks into smaller ones.

use rand::rngs::ThreadRng;
use vstd::prelude::*;
use crate::arena::{Arena, Margins};
use crate::random::{roll_range, roll_ratio};
use crate::vector::{Vector2, DIRECTION_ONE};

verus! {

pub const ASTEROID_BIG_RADIUS: i64 = 80_000_000;

pub const ASTEROID_MEDIUM_RADIUS: i64 = 50_000_000;

pub const ASTEROID_SMALL_RADIUS: i64 = 30_000_000;

pub const ASTEROID_BIG_SPEED: i64 = 100;

pub const ASTEROID_MEDIUM_SPEED: i64 = 200;

pub const ASTEROID_SMALL_SPEED: i64 = 300;

/// A fragment appears no farther than this from its parent, on each axis.
pub const FRAGMENT_SCATTER: i64 = 20_000_000;

/// The outline tolerance, in thousandths, stays below this.
pub const TOLERANCE_LIMIT: i64 = 5_000;

#[allow(non_camel_case_types)]
#[derive(Clone, Copy, Debug, PartialEq, Eq, Structural)]
pub enum AsteroidSize {
    BIG,
    MEDIUM,
    SMALL,
}

/// The arena edge beside which a new asteroid appears.
#[derive(Clone, Copy, Debug, PartialEq, Eq, Structural)]
pub enum Edge {
    Left,
    Right,
    Top,
    Bottom,
}

#[derive(Clone, Copy, Debug, PartialEq, Eq, Structural)]
pub struct Asteroid {
    pub position: Vector2,
    pub radius: i64,
    pub forward: Vector2,
    pub size: AsteroidSize,
    /// How coarsely the outline is drawn; no rule of the game reads it.
    pub tolerance: i64,
    pub speed: i64,
    pub destroyed: bool,
}

pub open spec fn radius_of(size: AsteroidSize) -> int {
    match size {
        AsteroidSize::BIG => ASTEROID_BIG_RADIUS as int,
        AsteroidSize::MEDIUM => ASTEROID_MEDIUM_RADIUS as int,
        AsteroidSize::SMALL => ASTEROID_SMALL_RADIUS as int,
    }
}

pub open spec fn speed_of(size: AsteroidSize) -> int {
    match size {
        AsteroidSize::BIG => ASTEROID_BIG_SPEED as int,
        AsteroidSize::MEDIUM => ASTEROID_MEDIUM_SPEED as int,
        AsteroidSize::SMALL => ASTEROID_SMALL_SPEED as int,
    }
}

/// The size of the pieces that an asteroid of `size` breaks into.
pub open spec fn smaller(size: AsteroidSize) -> AsteroidSize {
    match size {
        AsteroidSize::BIG => AsteroidSize::MEDIUM,
        _ => AsteroidSize::SMALL,
    }
}

/// The edge that two coin flips choose: the first picks the pair (left and
/// right, or top and bottom), the second the edge of the pair.
pub open spec fn edge_of(sideways: bool, first: bool) -> Edge {
    if sideways {
        if first {
            Edge::Left
        } else {
            Edge::Right
        }
    } else {
        if first {
            Edge::Top
        } else {
            Edge::Bottom
        }
    }
}

/// The length of an edge of the arena.
pub open spec fn edge_length(arena: Arena, edge: Edge) -> int {
    match edge {
        Edge::Left | Edge::Right => arena.height as int,
        Edge::Top | Edge::Bottom => arena.width as int,
    }
}

/// The point `offset` along `edge` and `radius` outside it.
pub open spec fn spawn_point(arena: Arena, edge: Edge, offset: int, radius: int) -> Vector2 {
    match edge {
        Edge::Left => Vector2 { x: (-radius) as i64, y: offset as i64 },
        Edge::Right => Vector2 { x: (arena.width + radius) as i64, y: offset as i64 },
        Edge::Top => Vector2 { x: offset as i64, y: (-radius) as i64 },
        Edge::Bottom => Vector2 { x: offset as i64, y: (arena.height + radius) as i64 },
    }
}

/// The point lies `radius` outside one of the four edges, somewhere along it.
pub open spec fn is_spawn_point(arena: Arena, radius: int, p: Vector2) -> bool {
    exists|edge: Edge, offset: int|
        0 <= offset <= edge_length(arena, edge) && p == #[trigger] spawn_point(
            arena,
            edge,
            offset,
            radius,
        )
}

impl Asteroid {
    /// Radius and speed are those of the size, and every field is in range.
    pub open spec fn wf(self) -> bool {
        &&& self.position.in_world()
        &&& self.forward.is_direction()
        &&& self.radius == radius_of(self.size)
        &&& self.speed == speed_of(self.size)
        &&& 0 <= self.tolerance < TOLERANCE_LIMIT
    }

    /// The asteroid of `size` at `position` heading along `forward`.
    pub open spec fn sized(
        position: Vector2,
        forward: Vector2,
        tolerance: int,
        size: AsteroidSize,
    ) -> Asteroid {
        Asteroid {
            position,
            radius: radius_of(size) as i64,
            forward,
            size,
            tolerance: tolerance as i64,
            speed: speed_of(size) as i64,
            destroyed: false,
        }
    }

    /// The piece of `parent` that appears `(dx, dy)` from it.
    pub open spec fn piece_of(
        parent: Asteroid,
        dx: int,
        dy: int,
        forward: Vector2,
        tolerance: int,
    ) -> Asteroid {
        Asteroid::sized(parent.position.shifted(dx, dy), forward, tolerance, smaller(parent.size))
    }

    /// This asteroid is a fresh piece of `parent`: of the next smaller size,
    /// intact, and within the scatter of where the parent was.
    pub open spec fn is_piece_of(self, parent: Asteroid) -> bool {
        &&& self.wf()
        &&& self.size == smaller(parent.size)
        &&& !self.destroyed
        &&& -FRAGMENT_SCATTER <= self.position.x - parent.position.x <= FRAGMENT_SCATTER
        &&& -FRAGMENT_SCATTER <= self.position.y - parent.position.y <= FRAGMENT_SCATTER
    }

    /// Where the asteroid is after `dt` milliseconds: moved along its heading
    /// at its speed, and carried across an edge once it has fully left.
    pub open spec fn moved(self, arena: Arena, dt: int) -> Asteroid {
        Asteroid {
            position: arena.wrapped_point(
                self.position.advanced(self.forward, self.speed as int, dt),
                Margins::even(self.radius as int),
            ),
            ..self
        }
    }

    /// Whether the asteroid is well formed.
    pub fn is_valid(&self) -> (valid: bool)
        ensures
            valid == self.wf(),
    {
        self.position.fits_world() && self.forward.fits_direction() && self.radius
            == Asteroid::radius_for_size(&self.size) && self.speed == Asteroid::speed_for_size(
            &self.size,
        ) && 0 <= self.tolerance && self.tolerance < TOLERANCE_LIMIT
    }

    pub fn next_size(size: &AsteroidSize) -> (next: AsteroidSize)
        ensures
            next == smaller(*size),
    {
        match size {
            AsteroidSize::BIG => AsteroidSize::MEDIUM,
            _ => AsteroidSize::SMALL,
        }
    }

    pub fn radius_for_size(size: &AsteroidSize) -> (radius: i64)
        ensures
            radius == radius_of(*size),
    {
        match size {
            AsteroidSize::BIG => ASTEROID_BIG_RADIUS,
            AsteroidSize::MEDIUM => ASTEROID_MEDIUM_RADIUS,
            _ => ASTEROID_SMALL_RADIUS,
        }
    }

    pub fn speed_for_size(size: &AsteroidSize) -> (speed: i64)
        ensures
            speed == speed_of(*size),
    {
        match size {
            AsteroidSize::BIG => ASTEROID_BIG_SPEED,
            AsteroidSize::MEDIUM => ASTEROID_MEDIUM_SPEED,
            _ => ASTEROID_SMALL_SPEED,
        }
    }

    /// An intact asteroid of `size`, with the radius and speed of that size.
    pub fn with_size(position: Vector2, forward: Vector2, tolerance: i64, size: AsteroidSize) -> (a:
        Asteroid)
        requires
            position.in_world(),
            forward.is_direction(),
            0 <= tolerance < TOLERANCE_LIMIT,
        ensures
            a == Asteroid::sized(position, forward, tolerance as int, size),
            a.wf(),
    {
        Asteroid {
            position,
            radius: Asteroid::radius_for_size(&size),
            forward,
            size,
            tolerance,
            speed: Asteroid::speed_for_size(&size),
            destroyed: false,
        }
    }

    /// The edge that two coin flips choose.
    pub fn pick_edge(sideways: bool, first: bool) -> (edge: Edge)
        ensures
            edge == edge_of(sideways, first),
    {
        if sideways {
            if first {
                Edge::Left
            } else {
                Edge::Right
            }
        } else {
            if first {
                Edge::Top
            } else {
                Edge::Bottom
            }
        }
    }

    /// The point `offset` along `edge` and `radius` outside it.
    pub fn spawn_position_at(arena: &Arena, edge: Edge, offset: i64, radius: i64) -> (p: Vector2)
        requires
            arena.wf(),
            0 <= offset <= edge_length(*arena, edge),
            0 <= radius <= crate::arena::MARGIN_LIMIT,
        ensures
            p == spawn_point(*arena, edge, offset as int, radius as int),
            is_spawn_point(*arena, radius as int, p),
            arena.holds(p, Margins::even(radius as int)),
            p.in_world(),
    {
        match edge {
            Edge::Left => Vector2 { x: -radius, y: offset },
            Edge::Right => Vector2 { x: arena.width + radius, y: offset },
            Edge::Top => Vector2 { x: offset, y: -radius },
            Edge::Bottom => Vector2 { x: offset, y: arena.height + radius },
        }
    }

    /// A point just outside one of the four edges, each edge as likely as
    /// the others, anywhere along it.
    pub fn get_spawn_position(rng: &mut ThreadRng, arena: &Arena, radius: i64) -> (p: Vector2)
        requires
            arena.wf(),
            0 <= radius <= crate::arena::MARGIN_LIMIT,
        ensures
            is_spawn_point(*arena, radius as int, p),
            arena.holds(p, Margins::even(radius as int)),
            p.in_world(),
    {
        let sideways: bool = roll_ratio(rng, 1, 2);
        let first: bool = roll_ratio(rng, 1, 2);
        let edge: Edge = Asteroid::pick_edge(sideways, first);
        let length: i64 = match edge {
            Edge::Left | Edge::Right => arena.height,
            Edge::Top | Edge::Bottom => arena.width,
        };
        let offset: i64 = roll_range(rng, 0, length);
        Asteroid::spawn_position_at(arena, edge, offset, radius)
    }

    /// A heading with each component anywhere between minus one and one.
    pub fn random_heading(rng: &mut ThreadRng) -> (forward: Vector2)
        ensures
            forward.is_direction(),
    {
        let x: i64 = roll_range(rng, -DIRECTION_ONE, DIRECTION_ONE);
        let y: i64 = roll_range(rng, -DIRECTION_ONE, DIRECTION_ONE);
        Vector2 { x, y }
    }

    /// A big asteroid just outside an edge of the arena, on a random heading.
    pub fn new(rng: &mut ThreadRng, arena: &Arena) -> (a: Asteroid)
        requires
            arena.wf(),
        ensures
            a.wf(),
            a.size == AsteroidSize::BIG,
            !a.destroyed,
            is_spawn_point(*arena, ASTEROID_BIG_RADIUS as int, a.position),
            arena.holds(a.position, Margins::even(a.radius as int)),
    {
        let position: Vector2 = Asteroid::get_spawn_position(rng, arena, ASTEROID_BIG_RADIUS);
        let forward: Vector2 = Asteroid::random_heading(rng);
        let tolerance: i64 = roll_range(rng, 0, TOLERANCE_LIMIT - 1);
        Asteroid::with_size(position, forward, tolerance, AsteroidSize::BIG)
    }

    /// The piece of `parent` that appears `(dx, dy)` from it.
    pub fn fragment(parent: &Asteroid, dx: i64, dy: i64, forward: Vector2, tolerance: i64) -> (a:
        Asteroid)
        requires
            parent.wf(),
            -FRAGMENT_SCATTER <= dx <= FRAGMENT_SCATTER,
            -FRAGMENT_SCATTER <= dy <= FRAGMENT_SCATTER,
            forward.is_direction(),
            0 <= tolerance < TOLERANCE_LIMIT,
        ensures
            a == Asteroid::piece_of(*parent, dx as int, dy as int, forward, tolerance as int),
            a.is_piece_of(*parent),
    {
        let position: Vector2 = parent.position.shift(dx, dy);
        Asteroid::with_size(position, forward, tolerance, Asteroid::next_size(&parent.size))
    }

    /// A piece of this asteroid: of the next smaller size, near where this
    /// one is, on a random heading.
    pub fn new_smaller(&self, rng: &mut ThreadRng) -> (a: Asteroid)
        requires
            self.wf(),
        ensures
            a.is_piece_of(*self),
    {
        let dx: i64 = roll_range(rng, -FRAGMENT_SCATTER, FRAGMENT_SCATTER);
        let dy: i64 = roll_range(rng, -FRAGMENT_SCATTER, FRAGMENT_SCATTER);
        let forward: Vector2 = Asteroid::random_heading(rng);
        let tolerance: i64 = roll_range(rng, 0, TOLERANCE_LIMIT - 1);
        Asteroid::fragment(self, dx, dy, forward, tolerance)
    }

    /// The margins with which an asteroid wraps: its radius on every side,
    /// so that it has fully left before it comes back.
    pub fn margins(&self) -> (m: Margins)
        requires
            self.wf(),
        ensures
            m == Margins::even(self.radius as int),
            m.wf(),
    {
        Margins::uniform(self.radius)
    }

    /// Moves the asteroid for `dt` milliseconds and wraps it.
    pub fn move_forward(&mut self, arena: &Arena, dt: u32)
        requires
            old(self).wf(),
            arena.wf(),
        ensures
            *final(self) == old(self).moved(*arena, dt as int),
            final(self).wf(),
            arena.holds(final(self).position, Margins::even(final(self).radius as int)),
    {
        self.position = self.position.advance(self.forward, self.speed, dt);
        self.clamp(arena);
    }

    /// Carries an asteroid that has fully left the arena to the other side.
    pub fn clamp(&mut self, arena: &Arena)
        requires
            old(self).wf(),
            arena.wf(),
        ensures
            *final(self) == (Asteroid {
                position: arena.wrapped_point(
                    old(self).position,
                    Margins::even(old(self).radius as int),
                ),
                ..*old(self)
            }),
            final(self).wf(),
            arena.holds(final(self).position, Margins::even(final(self).radius as int)),
    {
        let margins: Margins = self.margins();
        self.position = arena.wrap(self.position, &margins);
    }

    /// How many pieces an asteroid of `size` breaks into when the roll for
    /// their number came out as `rolled`: none for the smallest size.
    pub fn piece_count(size: &AsteroidSize, rolled: i64) -> (count: i64)
        ensures
            count == if *size == AsteroidSize::SMALL {
                0
            } else {
                rolled
            },
    {
        match size {
            AsteroidSize::SMALL => 0,
            _ => rolled,
        }
    }

    /// Marks the asteroid destroyed and returns its pieces: two or three of
    /// the next smaller size, or none where it was of the smallest size.
    pub fn destroy_asteroid(&mut self, rng: &mut ThreadRng) -> (pieces: Vec<Asteroid>)
        requires
            old(self).wf(),
        ensures
            *final(self) == (Asteroid { destroyed: true, ..*old(self) }),
            old(self).size == AsteroidSize::SMALL ==> pieces@.len() == 0,
            old(self).size != AsteroidSize::SMALL ==> 2 <= pieces@.len() <= 3,
            forall|i: int| 0 <= i < pieces@.len() ==> (#[trigger] pieces@[i]).is_piece_of(*old(self)),
    {
        let mut pieces: Vec<Asteroid> = Vec::new();
        let rolled: i64 = roll_range(rng, 2, 3);
        let count: i64 = Asteroid::piece_count(&self.size, rolled);
        let mut made: i64 = 0;
        while made < count
            invariant
                0 <= made <= count,
                self.size == AsteroidSize::SMALL ==> count == 0,
                self.size != AsteroidSize::SMALL ==> 2 <= count <= 3,
                pieces@.len() == made,
                self.wf(),
                *self == *old(self),
                forall|i: int|
                    0 <= i < pieces@.len() ==> (#[trigger] pieces@[i]).is_piece_of(*self),
            decreases count - made,
        {
            let piece: Asteroid = self.new_smaller(rng);
            pieces.push(piece);
            made = made + 1;
        }
        self.destroyed = true;
        pieces
    }

}

/// Radius and speed follow from the size: two asteroids of one size have
/// the same radius and the same speed.
pub proof fn lemma_size_fixes_radius_and_speed(a: Asteroid, b: Asteroid)
    requires
        a.wf(),
        b.wf(),
        a.size == b.size,
    ensures
        a.radius == b.radius,
        a.speed == b.speed,
        a.radius == radius_of(a.size),
        a.speed == speed_of(a.size),
{
}

/// The smaller the asteroid, the faster it is.
pub proof fn lemma_smaller_is_faster(size: AsteroidSize)
    requires
        size != AsteroidSize::SMALL,
    ensures
        radius_of(smaller(size)) < radius_of(size),
        speed_of(smaller(size)) > speed_of(size),
{
}

/// However often an asteroid moves, it is never left farther outside the
/// arena than its radius.
pub proof fn lemma_asteroid_stays_in_reach(a: Asteroid, arena: Arena, dt: int)
    requires
        a.wf(),
        arena.wf(),
    ensures
        arena.holds(a.moved(arena, dt).position, Margins::even(a.radius as int)),
        a.moved(arena, dt).radius == a.radius,
{
}

} // verus!
