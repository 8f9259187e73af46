//! Session-wide guarantees, stated over the tick model and proved for
//! every sequence of inputs: well-formedness is preserved, paddles never
//! leave their travel bounds, and scores never decrease.

use vstd::prelude::*;
use crate::config::{paddle_hi, paddle_lo};
use crate::game::{colliders, moved_ball, moved_players, spec_tick, wf, GameModel};
use crate::input::KeySnapshot;
use crate::resolve::{
    lemma_resolve_all_bounds, lemma_resolve_all_half, lemma_resolve_all_scores_monotonic,
};

verus! {

/// The state after running a whole sequence of ticks, one key snapshot
/// per tick, in order.
pub open spec fn run_model(g: GameModel, inputs: Seq<KeySnapshot>) -> GameModel
    decreases inputs.len(),
{
    if inputs.len() == 0 {
        g
    } else {
        run_model(spec_tick(g, inputs[0]).state, inputs.drop_first())
    }
}

/// One tick keeps the session well formed and never touches the
/// configuration, the surfaces, the paddles' sizes or the ball's size.
pub proof fn lemma_tick_preserves_wf(g: GameModel, keys: KeySnapshot)
    ensures
        wf(g) ==> wf(spec_tick(g, keys).state),
        spec_tick(g, keys).state.config == g.config,
        spec_tick(g, keys).state.surfaces == g.surfaces,
        spec_tick(g, keys).state.paddle1.half == g.paddle1.half,
        spec_tick(g, keys).state.paddle2.half == g.paddle2.half,
        spec_tick(g, keys).state.ball.half == g.ball.half,
{
    let g2 = moved_ball(moved_players(g, keys));
    lemma_resolve_all_half(g2.ball, g2.score, colliders(g2));
    if wf(g) {
        lemma_resolve_all_bounds(g2.ball, g2.score, colliders(g2));
    }
}

/// Running any sequence of ticks keeps the session well formed and never
/// touches the configuration.
pub proof fn lemma_run_preserves_wf(g: GameModel, inputs: Seq<KeySnapshot>)
    requires
        wf(g),
    ensures
        wf(run_model(g, inputs)),
        run_model(g, inputs).config == g.config,
    decreases inputs.len(),
{
    if inputs.len() == 0 {
    } else {
        lemma_tick_preserves_wf(g, inputs[0]);
        lemma_run_preserves_wf(spec_tick(g, inputs[0]).state, inputs.drop_first());
    }
}

/// Paddle positions are always clamped: starting from any well-formed
/// state, after any sequence of intents over any number of ticks, each
/// paddle's vertical centre stays within the arena's travel bounds.
pub proof fn lemma_paddles_always_clamped(g: GameModel, inputs: Seq<KeySnapshot>)
    requires
        wf(g),
    ensures
        paddle_lo(g.config) <= run_model(g, inputs).paddle1.pos.y <= paddle_hi(g.config),
        paddle_lo(g.config) <= run_model(g, inputs).paddle2.pos.y <= paddle_hi(g.config),
{
    lemma_run_preserves_wf(g, inputs);
}

/// One tick never decreases either score, whatever the state.
pub proof fn lemma_tick_scores_monotonic(g: GameModel, keys: KeySnapshot)
    ensures
        spec_tick(g, keys).state.score.p1 >= g.score.p1,
        spec_tick(g, keys).state.score.p2 >= g.score.p2,
{
    let g2 = moved_ball(moved_players(g, keys));
    lemma_resolve_all_scores_monotonic(g2.ball, g2.score, colliders(g2));
}

/// Score monotonicity: across any sequence of ticks, neither player's
/// score ever decreases.
pub proof fn lemma_scores_never_decrease(g: GameModel, inputs: Seq<KeySnapshot>)
    ensures
        run_model(g, inputs).score.p1 >= g.score.p1,
        run_model(g, inputs).score.p2 >= g.score.p2,
    decreases inputs.len(),
{
    if inputs.len() == 0 {
    } else {
        lemma_tick_scores_monotonic(g, inputs[0]);
        lemma_scores_never_decrease(spec_tick(g, inputs[0]).state, inputs.drop_first());
    }
}

} // verus!
