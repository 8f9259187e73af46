//! Session configuration: the constants fixed at start time, their
//! validity conditions, and the standard arena of the game.

use vstd::prelude::*;
use crate::geom::{half_ok, vel_ok, Vec2, V2, HALF_LIMIT, SUBUNITS_PER_UNIT, VEL_LIMIT};

verus! {

/// Mathematical model of a [`Config`].
#[verifier::ext_equal]
pub struct ConfigModel {
    pub arena_half_w: int,
    pub arena_half_h: int,
    pub paddle_margin: int,
    pub paddle_step: int,
    pub paddle_inset: int,
    pub paddle_half: V2,
    pub paddle1_start_y: int,
    pub paddle2_start_y: int,
    pub wall_half_depth: int,
    pub ball_half: V2,
    pub ball_vel: V2,
}

/// The configuration constants of a session, all in sub-units (and, for
/// velocities, sub-units per tick).  Fixed at start time; never changed
/// during play.
#[derive(Clone, Copy, Debug, PartialEq, Eq, Structural)]
pub struct Config {
    /// Half the arena's width; the scoring walls sit at `±arena_half_w`.
    pub arena_half_w: i64,
    /// Half the arena's height; the bounce walls sit at `±arena_half_h`.
    pub arena_half_h: i64,
    /// Distance from the arena's half-height to a paddle's travel bound.
    pub paddle_margin: i64,
    /// A paddle's travel per tick at full intent.
    pub paddle_step: i64,
    /// Horizontal inset of each paddle's centre from its side wall.
    pub paddle_inset: i64,
    /// Half-extent of each paddle's box.
    pub paddle_half: Vec2,
    /// Paddle 1's starting vertical centre.
    pub paddle1_start_y: i64,
    /// Paddle 2's starting vertical centre.
    pub paddle2_start_y: i64,
    /// Half the thickness of each wall slab.
    pub wall_half_depth: i64,
    /// Half-extent of the ball's box.
    pub ball_half: Vec2,
    /// The ball's launch velocity, kept across scoring resets.
    pub ball_vel: Vec2,
}

impl View for Config {
    type V = ConfigModel;

    open spec fn view(&self) -> ConfigModel {
        ConfigModel {
            arena_half_w: self.arena_half_w as int,
            arena_half_h: self.arena_half_h as int,
            paddle_margin: self.paddle_margin as int,
            paddle_step: self.paddle_step as int,
            paddle_inset: self.paddle_inset as int,
            paddle_half: self.paddle_half@,
            paddle1_start_y: self.paddle1_start_y as int,
            paddle2_start_y: self.paddle2_start_y as int,
            wall_half_depth: self.wall_half_depth as int,
            ball_half: self.ball_half@,
            ball_vel: self.ball_vel@,
        }
    }
}

/// Lower bound of a paddle's vertical travel.
pub open spec fn paddle_lo(c: ConfigModel) -> int {
    -c.arena_half_h + c.paddle_margin
}

/// Upper bound of a paddle's vertical travel.
pub open spec fn paddle_hi(c: ConfigModel) -> int {
    c.arena_half_h - c.paddle_margin
}

/// The geometric configuration describes a usable arena: positive extents
/// within the world's bounds, a margin no larger than the half-height,
/// a positive paddle speed within the velocity bound, and paddle starting
/// positions within their travel bounds.
pub open spec fn geometry_ok(c: ConfigModel) -> bool {
    &&& 0 < c.arena_half_w <= HALF_LIMIT
    &&& 0 < c.arena_half_h <= HALF_LIMIT
    &&& 0 <= c.paddle_margin <= c.arena_half_h
    &&& 0 < c.paddle_step <= VEL_LIMIT
    &&& 0 <= c.paddle_inset <= c.arena_half_w
    &&& half_ok(c.paddle_half)
    &&& half_ok(c.ball_half)
    &&& 0 <= c.wall_half_depth <= HALF_LIMIT
    &&& paddle_lo(c) <= c.paddle1_start_y <= paddle_hi(c)
    &&& paddle_lo(c) <= c.paddle2_start_y <= paddle_hi(c)
}

/// The launch velocity is well formed: within the velocity bound and not
/// the zero vector, whose direction would be degenerate.
pub open spec fn velocity_ok(c: ConfigModel) -> bool {
    vel_ok(c.ball_vel) && !(c.ball_vel.x == 0 && c.ball_vel.y == 0)
}

/// A configuration a session may start from.
pub open spec fn config_ok(c: ConfigModel) -> bool {
    geometry_ok(c) && velocity_ok(c)
}

/// Why a configuration was rejected at session start.
#[derive(Clone, Copy, Debug, PartialEq, Eq, Structural)]
pub enum ConfigError {
    /// An arena dimension, margin, speed, inset, half-extent or paddle
    /// start position is out of range.
    BadGeometry,
    /// The launch velocity is the zero vector: its direction is
    /// degenerate.
    ZeroVelocity,
    /// A launch velocity component exceeds the velocity bound.
    ExcessiveVelocity,
}

impl Config {
    /// The standard arena: 1280 by 720 world units, paddles 20 units from
    /// their side walls with an 80-unit travel margin, paddle speed 500
    /// world units per second, and the given launch velocity in world
    /// units per second.
    pub fn standard(ball_vel: Vec2) -> (c: Config)
        ensures
            c.arena_half_w == 640 * SUBUNITS_PER_UNIT,
            c.arena_half_h == 360 * SUBUNITS_PER_UNIT,
            c.paddle_margin == 80 * SUBUNITS_PER_UNIT,
            c.paddle_step == 500,
            c.paddle_inset == 20 * SUBUNITS_PER_UNIT,
            c.paddle_half == (Vec2 { x: 384, y: 3840 }),
            c.paddle1_start_y == 0 && c.paddle2_start_y == 0,
            c.wall_half_depth == 5 * SUBUNITS_PER_UNIT,
            c.ball_half == (Vec2 { x: 360, y: 360 }),
            c.ball_vel == ball_vel,
    {
        Config {
            arena_half_w: 640 * SUBUNITS_PER_UNIT,
            arena_half_h: 360 * SUBUNITS_PER_UNIT,
            paddle_margin: 80 * SUBUNITS_PER_UNIT,
            // 500 world units per second is 500 sub-units per tick.
            paddle_step: 500,
            paddle_inset: 20 * SUBUNITS_PER_UNIT,
            // 6.4 world units, exact in sub-units.
            paddle_half: Vec2 { x: 384, y: 64 * SUBUNITS_PER_UNIT },
            paddle1_start_y: 0,
            paddle2_start_y: 0,
            wall_half_depth: 5 * SUBUNITS_PER_UNIT,
            ball_half: Vec2 { x: 6 * SUBUNITS_PER_UNIT, y: 6 * SUBUNITS_PER_UNIT },
            ball_vel,
        }
    }
}

} // verus!
