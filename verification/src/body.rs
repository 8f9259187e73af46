//! The simulated bodies: the ball, the paddles, and the static surfaces,
//! with their well-formedness conditions and mathematical models.

use vstd::prelude::*;
use crate::geom::{half_ok, pos_ok, vel_ok, Vec2, V2};

verus! {

/// Role of a static surface: a plain bounce wall, or a scoring wall on the
/// left or right edge of the arena.  A left scoring wall awards player 2's
/// point, a right one player 1's.
#[derive(Clone, Copy, Debug, PartialEq, Eq, Structural)]
pub enum SurfaceKind {
    Bounce,
    ScoreLeft,
    ScoreRight,
}

/// Mathematical model of a [`Surface`].
#[verifier::ext_equal]
pub struct SurfaceModel {
    pub pos: V2,
    pub half: V2,
    pub kind: SurfaceKind,
}

/// A static, immovable collidable box: centre, half-extent and role.
/// Surfaces are created once at session start and persist for the whole
/// session; scoring walls stay in place so every point can be scored.
#[derive(Clone, Copy, Debug, PartialEq, Eq, Structural)]
pub struct Surface {
    pub pos: Vec2,
    pub half: Vec2,
    pub kind: SurfaceKind,
}

impl View for Surface {
    type V = SurfaceModel;

    open spec fn view(&self) -> SurfaceModel {
        SurfaceModel { pos: self.pos@, half: self.half@, kind: self.kind }
    }
}

/// Mathematical model of a [`Ball`].
#[verifier::ext_equal]
pub struct BallModel {
    pub pos: V2,
    pub vel: V2,
    pub half: V2,
}

/// The ball: centre, velocity in sub-units per tick, and half-extent.
#[derive(Clone, Copy, Debug, PartialEq, Eq, Structural)]
pub struct Ball {
    pub pos: Vec2,
    pub vel: Vec2,
    pub half: Vec2,
}

impl View for Ball {
    type V = BallModel;

    open spec fn view(&self) -> BallModel {
        BallModel { pos: self.pos@, vel: self.vel@, half: self.half@ }
    }
}

/// Mathematical model of a [`Paddle`].
#[verifier::ext_equal]
pub struct PaddleModel {
    pub pos: V2,
    pub half: V2,
}

/// A player's paddle: centre and half-extent.  A paddle has no persistent
/// velocity; its motion is derived from the player's intent each tick.
#[derive(Clone, Copy, Debug, PartialEq, Eq, Structural)]
pub struct Paddle {
    pub pos: Vec2,
    pub half: Vec2,
}

impl View for Paddle {
    type V = PaddleModel;

    open spec fn view(&self) -> PaddleModel {
        PaddleModel { pos: self.pos@, half: self.half@ }
    }
}

/// Well-formed surface: position and half-extent within the world.
pub open spec fn surface_ok(s: SurfaceModel) -> bool {
    pos_ok(s.pos) && half_ok(s.half)
}

/// Well-formed ball: position, velocity and half-extent within bounds.
pub open spec fn ball_ok(b: BallModel) -> bool {
    pos_ok(b.pos) && vel_ok(b.vel) && half_ok(b.half)
}

/// Well-formed paddle: position and half-extent within the world.
pub open spec fn paddle_ok(p: PaddleModel) -> bool {
    pos_ok(p.pos) && half_ok(p.half)
}

/// A paddle seen by the collision resolver: the same box, acting as a
/// bounce surface.
pub open spec fn paddle_collider(p: PaddleModel) -> SurfaceModel {
    SurfaceModel { pos: p.pos, half: p.half, kind: SurfaceKind::Bounce }
}

impl Paddle {
    /// The paddle's box as a collider for the resolver.
    pub fn to_collider(&self) -> (s: Surface)
        ensures
            s@ == paddle_collider(self@),
    {
        Surface { pos: self.pos, half: self.half, kind: SurfaceKind::Bounce }
    }
}

} // verus!
