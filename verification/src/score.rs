//! The scoreboard: two monotonically non-decreasing counters, written only
//! by the collision resolver and read by the host for display.

use vstd::prelude::*;

verus! {

/// Mathematical model of a [`Scoreboard`].
#[verifier::ext_equal]
pub struct ScoreModel {
    pub p1: int,
    pub p2: int,
}

/// The two players' scores.  Only the collision resolver writes them; they
/// never decrease within a session and never reset.
#[derive(Clone, Copy, Debug, PartialEq, Eq, Structural)]
pub struct Scoreboard {
    pub p1_score: usize,
    pub p2_score: usize,
}

impl View for Scoreboard {
    type V = ScoreModel;

    open spec fn view(&self) -> ScoreModel {
        ScoreModel { p1: self.p1_score as int, p2: self.p2_score as int }
    }
}

/// A counter after one point is awarded: one more, saturating at the
/// counter's representation limit so that awarding a point is total.
pub open spec fn bumped(s: int) -> int {
    if s < usize::MAX {
        s + 1
    } else {
        s
    }
}

impl Scoreboard {
    /// A fresh scoreboard with both counters at zero.
    pub fn new() -> (s: Scoreboard)
        ensures
            s.p1_score == 0,
            s.p2_score == 0,
    {
        Scoreboard { p1_score: 0, p2_score: 0 }
    }

    /// Read accessor for player 1's score.
    pub fn player1(&self) -> (r: usize)
        ensures
            r == self.p1_score,
    {
        self.p1_score
    }

    /// Read accessor for player 2's score.
    pub fn player2(&self) -> (r: usize)
        ensures
            r == self.p2_score,
    {
        self.p2_score
    }
}

} // verus!
