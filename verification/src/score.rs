//! The score and the high score.

use vstd::prelude::*;

verus! {

/// The points of the running game.
#[derive(Copy, Clone, Debug, PartialEq, Eq, Structural)]
pub struct Score(pub u32);

/// The most points that any game has reached.
#[derive(Copy, Clone, Debug, PartialEq, Eq, Structural)]
pub struct HighScore(pub u32);

impl Score {
    /// The score with `points` more; it stops at the largest number that
    /// it can hold.
    pub open spec fn spec_add(self, points: u32) -> Score {
        if self.0 + points > u32::MAX {
            Score(u32::MAX)
        } else {
            Score((self.0 + points) as u32)
        }
    }

    /// Adds `points` to the score.
    pub fn add_assign(&mut self, points: u32)
        ensures
            *final(self) == old(self).spec_add(points),
    {
        self.0 = if points > u32::MAX - self.0 {
            u32::MAX
        } else {
            self.0 + points
        };
    }
}

/// Raises the high score to the score, if the score is higher.
pub fn update_high_score(score: &Score, high_score: &mut HighScore)
    ensures
        final(high_score).0 == if score.0 > old(high_score).0 {
            score.0
        } else {
            old(high_score).0
        },
{
    if score.0 > high_score.0 {
        high_score.0 = score.0;
    }
}

} // verus!
