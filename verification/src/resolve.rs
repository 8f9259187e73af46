//! Collision resolution model: how one tick's worth of collisions between
//! the ball and an ordered sequence of colliders changes the ball, the
//! scoreboard, and the count of collision events.

use vstd::prelude::*;
use crate::body::{ball_ok, BallModel, SurfaceKind, SurfaceModel};
use crate::geom::{spec_overlap, Side, V2};
use crate::score::{bumped, ScoreModel};

verus! {

/// The arena centre, where the ball is placed after a score.
pub open spec fn arena_center() -> V2 {
    V2 { x: 0, y: 0 }
}

/// Velocity after striking `side`: the struck axis is flipped only when
/// the ball is still moving into the surface, so that a ball embedded in
/// a collider for several ticks reflects once, not once per tick.
/// `Inside` reflects nothing.
pub open spec fn reflected(side: Side, v: V2) -> V2 {
    match side {
        Side::Left => if v.x > 0 {
            V2 { x: -v.x, y: v.y }
        } else {
            v
        },
        Side::Right => if v.x < 0 {
            V2 { x: -v.x, y: v.y }
        } else {
            v
        },
        Side::Top => if v.y < 0 {
            V2 { x: v.x, y: -v.y }
        } else {
            v
        },
        Side::Bottom => if v.y > 0 {
            V2 { x: v.x, y: -v.y }
        } else {
            v
        },
        Side::Inside => v,
    }
}

/// The ball is already moving away from (or along) the face it struck, so
/// no reflection is owed.
pub open spec fn moving_away(side: Side, v: V2) -> bool {
    match side {
        Side::Left => v.x <= 0,
        Side::Right => v.x >= 0,
        Side::Top => v.y >= 0,
        Side::Bottom => v.y <= 0,
        Side::Inside => true,
    }
}

/// Outcome of resolving the ball against one or more colliders: the ball's
/// new state, the scoreboard, and how many collision events were emitted.
#[verifier::ext_equal]
pub struct ResolveModel {
    pub ball: BallModel,
    pub score: ScoreModel,
    pub events: int,
}

/// Resolution of the ball against a single collider.  No overlap means no
/// effect.  A scoring wall awards the opposing player's point and resets
/// the ball to the arena centre, the velocity carried over unchanged
/// through the reset.  Independently of scoring, the struck side reflects
/// the velocity, guarded by the direction of motion.
pub open spec fn resolve_one(b: BallModel, s: ScoreModel, c: SurfaceModel) -> ResolveModel {
    match spec_overlap(b.pos, b.half, c.pos, c.half) {
        None => ResolveModel { ball: b, score: s, events: 0 },
        Some(side) => {
            let pos = match c.kind {
                SurfaceKind::Bounce => b.pos,
                SurfaceKind::ScoreLeft => arena_center(),
                SurfaceKind::ScoreRight => arena_center(),
            };
            let score = match c.kind {
                SurfaceKind::Bounce => s,
                SurfaceKind::ScoreLeft => ScoreModel { p1: s.p1, p2: bumped(s.p2) },
                SurfaceKind::ScoreRight => ScoreModel { p1: bumped(s.p1), p2: s.p2 },
            };
            ResolveModel {
                ball: BallModel { pos, vel: reflected(side, b.vel), half: b.half },
                score,
                events: 1,
            }
        },
    }
}

/// Resolution of the ball against every collider in order, each collision
/// seen by the colliders after it: the overlap test for a later collider
/// runs against the ball as the earlier ones left it.
pub open spec fn resolve_all(b: BallModel, s: ScoreModel, cols: Seq<SurfaceModel>) -> ResolveModel
    decreases cols.len(),
{
    if cols.len() == 0 {
        ResolveModel { ball: b, score: s, events: 0 }
    } else {
        let first = resolve_one(b, s, cols[0]);
        let rest = resolve_all(first.ball, first.score, cols.drop_first());
        ResolveModel { ball: rest.ball, score: rest.score, events: first.events + rest.events }
    }
}

/// `r` with `k` more events counted.
pub open spec fn with_events(r: ResolveModel, k: int) -> ResolveModel {
    ResolveModel { ball: r.ball, score: r.score, events: r.events + k }
}

/// Unfolds `resolve_all` one collider at a time from position `i`, for
/// loops that walk the collider sequence.
pub proof fn lemma_resolve_all_step(b: BallModel, s: ScoreModel, cols: Seq<SurfaceModel>, i: int)
    requires
        0 <= i < cols.len(),
    ensures
        resolve_all(b, s, cols.skip(i)) == ({
            let first = resolve_one(b, s, cols[i]);
            with_events(resolve_all(first.ball, first.score, cols.skip(i + 1)), first.events)
        }),
{
    assert(cols.skip(i)[0] == cols[i]);
    assert(cols.skip(i).drop_first() =~= cols.skip(i + 1));
}

/// Resolving one collider keeps the ball well formed and its size fixed,
/// keeps the scores within the counters' range, and emits at most one
/// event.
pub proof fn lemma_resolve_one_bounds(b: BallModel, s: ScoreModel, c: SurfaceModel)
    requires
        ball_ok(b),
        0 <= s.p1 <= usize::MAX,
        0 <= s.p2 <= usize::MAX,
    ensures
        ball_ok(resolve_one(b, s, c).ball),
        resolve_one(b, s, c).ball.half == b.half,
        0 <= resolve_one(b, s, c).score.p1 <= usize::MAX,
        0 <= resolve_one(b, s, c).score.p2 <= usize::MAX,
        0 <= resolve_one(b, s, c).events <= 1,
{
}

/// Resolving any collider sequence keeps the ball well formed and its
/// size fixed, keeps the scores in range, and emits at most one event per
/// collider.
pub proof fn lemma_resolve_all_bounds(b: BallModel, s: ScoreModel, cols: Seq<SurfaceModel>)
    requires
        ball_ok(b),
        0 <= s.p1 <= usize::MAX,
        0 <= s.p2 <= usize::MAX,
    ensures
        ball_ok(resolve_all(b, s, cols).ball),
        resolve_all(b, s, cols).ball.half == b.half,
        0 <= resolve_all(b, s, cols).score.p1 <= usize::MAX,
        0 <= resolve_all(b, s, cols).score.p2 <= usize::MAX,
        0 <= resolve_all(b, s, cols).events <= cols.len(),
    decreases cols.len(),
{
    if cols.len() == 0 {
    } else {
        lemma_resolve_one_bounds(b, s, cols[0]);
        let first = resolve_one(b, s, cols[0]);
        lemma_resolve_all_bounds(first.ball, first.score, cols.drop_first());
    }
}

/// The resolver never changes the ball's half-extent, whatever the
/// state: only position and velocity are touched.
pub proof fn lemma_resolve_all_half(b: BallModel, s: ScoreModel, cols: Seq<SurfaceModel>)
    ensures
        resolve_all(b, s, cols).ball.half == b.half,
    decreases cols.len(),
{
    if cols.len() == 0 {
    } else {
        let first = resolve_one(b, s, cols[0]);
        lemma_resolve_all_half(first.ball, first.score, cols.drop_first());
    }
}

/// Scores never decrease across the resolution of one collider.
pub proof fn lemma_resolve_one_scores_monotonic(b: BallModel, s: ScoreModel, c: SurfaceModel)
    ensures
        resolve_one(b, s, c).score.p1 >= s.p1,
        resolve_one(b, s, c).score.p2 >= s.p2,
{
}

/// Scores never decrease across the resolution of a collider sequence.
pub proof fn lemma_resolve_all_scores_monotonic(b: BallModel, s: ScoreModel, cols: Seq<
    SurfaceModel,
>)
    ensures
        resolve_all(b, s, cols).score.p1 >= s.p1,
        resolve_all(b, s, cols).score.p2 >= s.p2,
    decreases cols.len(),
{
    if cols.len() == 0 {
    } else {
        lemma_resolve_one_scores_monotonic(b, s, cols[0]);
        let first = resolve_one(b, s, cols[0]);
        lemma_resolve_all_scores_monotonic(first.ball, first.score, cols.drop_first());
    }
}

/// Reflection is idempotent-safe: a ball that still overlaps a collider
/// but is already moving away from the struck face keeps its velocity,
/// and resolution always leaves the ball moving away from that face, so
/// no guard-less double flip can occur.
pub proof fn lemma_no_rereflection(b: BallModel, s: ScoreModel, c: SurfaceModel)
    ensures
        spec_overlap(b.pos, b.half, c.pos, c.half) matches Some(side) ==> (moving_away(
            side,
            b.vel,
        ) ==> resolve_one(b, s, c).ball.vel == b.vel),
        spec_overlap(b.pos, b.half, c.pos, c.half) matches Some(side) ==> moving_away(
            side,
            resolve_one(b, s, c).ball.vel,
        ),
{
}

/// Against a bounce wall, resolving a second time without the ball moving
/// in between reflects nothing further: the velocity after two
/// resolutions equals the velocity after one.
pub proof fn lemma_bounce_reflects_once(b: BallModel, s: ScoreModel, c: SurfaceModel)
    requires
        c.kind is Bounce,
    ensures
        ({
            let r1 = resolve_one(b, s, c);
            resolve_one(r1.ball, r1.score, c).ball.vel == r1.ball.vel
        }),
{
    let r1 = resolve_one(b, s, c);
    lemma_no_rereflection(b, s, c);
    lemma_no_rereflection(r1.ball, r1.score, c);
}

} // verus!
