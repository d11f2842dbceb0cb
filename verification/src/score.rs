//! The score of a session: it only ever grows, by a fixed amount for each
//! kind of thing destroyed.

use vstd::prelude::*;
use crate::asteroid::AsteroidSize;

verus! {

pub const BIG_ASTEROID_POINTS: u64 = 20;

pub const MEDIUM_ASTEROID_POINTS: u64 = 50;

pub const SMALL_ASTEROID_POINTS: u64 = 100;

pub const ALIEN_POINTS: u64 = 100;

#[derive(Clone, Copy, Debug, PartialEq, Eq, Structural)]
pub struct Score {
    pub score: u64,
}

/// What destroying an asteroid of `size` is worth.
pub open spec fn asteroid_points(size: AsteroidSize) -> int {
    match size {
        AsteroidSize::BIG => BIG_ASTEROID_POINTS as int,
        AsteroidSize::MEDIUM => MEDIUM_ASTEROID_POINTS as int,
        AsteroidSize::SMALL => SMALL_ASTEROID_POINTS as int,
    }
}

/// The score after `points` have been added to `score`: their sum, held at
/// the largest score there is.
pub open spec fn awarded(score: int, points: int) -> int {
    if score + points > u64::MAX {
        u64::MAX as int
    } else {
        score + points
    }
}

impl Score {
    pub fn new() -> (s: Score)
        ensures
            s.score == 0,
    {
        Score { score: 0 }
    }

    /// The points scored so far.
    pub fn value(&self) -> (v: u64)
        ensures
            v == self.score,
    {
        self.score
    }

    /// What destroying an asteroid of `size` is worth.
    pub fn points_for(size: &AsteroidSize) -> (points: u64)
        ensures
            points == asteroid_points(*size),
    {
        match size {
            AsteroidSize::BIG => BIG_ASTEROID_POINTS,
            AsteroidSize::MEDIUM => MEDIUM_ASTEROID_POINTS,
            _ => SMALL_ASTEROID_POINTS,
        }
    }

    /// Adds what an asteroid of the destroyed size is worth.
    pub fn update_score_asteroid(&mut self, destroyed_asteroid_size: &AsteroidSize)
        ensures
            final(self).score == awarded(
                old(self).score as int,
                asteroid_points(*destroyed_asteroid_size),
            ),
            final(self).score >= old(self).score,
    {
        self.score = self.score.saturating_add(Score::points_for(destroyed_asteroid_size));
    }

    /// Adds what the alien is worth.
    pub fn update_score_alien(&mut self)
        ensures
            final(self).score == awarded(old(self).score as int, ALIEN_POINTS as int),
            final(self).score >= old(self).score,
    {
        self.score = self.score.saturating_add(ALIEN_POINTS);
    }
}

/// Points never lower a score.
pub proof fn lemma_award_never_lowers(score: int, points: int)
    requires
        0 <= score <= u64::MAX,
        0 <= points,
    ensures
        score <= awarded(score, points) <= u64::MAX,
{
}

/// Two awards give the same score in either order.
pub proof fn lemma_award_order(score: int, first: int, second: int)
    requires
        0 <= score <= u64::MAX,
        0 <= first,
        0 <= second,
    ensures
        awarded(awarded(score, first), second) == awarded(awarded(score, second), first),
        awarded(awarded(score, first), second) == awarded(score, first + second),
{
}

} // verus!
