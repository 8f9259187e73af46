//! Input-to-intent mapping: the per-tick snapshot of the four logical keys
//! and its translation into paddle movement intents.

use vstd::prelude::*;

verus! {

/// Which of the four logical keys are held during the current tick.  The
/// host maps physical keys to these; the core never sees key codes.
#[derive(Clone, Copy, Debug, PartialEq, Eq, Structural)]
pub struct KeySnapshot {
    pub p1_up: bool,
    pub p1_down: bool,
    pub p2_up: bool,
    pub p2_down: bool,
}

/// Movement intent from an up/down key pair: `+1`, `-1`, or `0`; holding
/// both keys cancels to `0`.
pub open spec fn intent_of(up: bool, down: bool) -> int {
    (if up {
        1int
    } else {
        0int
    }) - (if down {
        1int
    } else {
        0int
    })
}

/// Player 1's movement intent for this tick.
pub open spec fn p1_intent(keys: KeySnapshot) -> int {
    intent_of(keys.p1_up, keys.p1_down)
}

/// Player 2's movement intent for this tick.
pub open spec fn p2_intent(keys: KeySnapshot) -> int {
    intent_of(keys.p2_up, keys.p2_down)
}

/// Translates the key snapshot into the two paddle intents, each in
/// `{-1, 0, +1}`, with no smoothing or repeat-rate logic.
pub fn player_intents(keys: KeySnapshot) -> (r: (i64, i64))
    ensures
        r.0 == p1_intent(keys),
        r.1 == p2_intent(keys),
{
    let mut direction_player1: i64 = 0;
    let mut direction_player2: i64 = 0;
    if keys.p1_up {
        direction_player1 = direction_player1 + 1;
    }
    if keys.p1_down {
        direction_player1 = direction_player1 - 1;
    }
    if keys.p2_up {
        direction_player2 = direction_player2 + 1;
    }
    if keys.p2_down {
        direction_player2 = direction_player2 - 1;
    }
    (direction_player1, direction_player2)
}

} // verus!
