//! The body registry and the fixed-tick pipeline: paddle motion from
//! intents, ball motion from velocity, and collision resolution with
//! scoring, in that order, once per tick.

use vstd::prelude::*;
use crate::body::{
    ball_ok, paddle_collider, paddle_ok, surface_ok, Ball, BallModel, Paddle, PaddleModel, Surface,
    SurfaceKind, SurfaceModel,
};
use crate::config::{
    config_ok, geometry_ok, paddle_hi, paddle_lo, Config, ConfigError, ConfigModel,
};
use crate::geom::{Vec2, V2, HALF_LIMIT, POS_LIMIT, VEL_LIMIT};
use crate::input::{p1_intent, p2_intent, player_intents, KeySnapshot};
use crate::motion::{advance_axis, advanced, paddle_moved, step_paddle};
use crate::resolve::{lemma_resolve_all_step, resolve_all, resolve_one, with_events};
use crate::score::{ScoreModel, Scoreboard};

verus! {

/// Largest number of static surfaces the registry accepts; the standard
/// arena has four.
pub const MAX_SURFACES: usize = 64;

/// Mathematical model of a [`GameState`].
#[verifier::ext_equal]
pub struct GameModel {
    pub config: ConfigModel,
    pub ball: BallModel,
    pub paddle1: PaddleModel,
    pub paddle2: PaddleModel,
    pub surfaces: Seq<SurfaceModel>,
    pub score: ScoreModel,
}

/// Mathematical model of one tick's outcome: the next state and how many
/// collision events were emitted for the host's feedback.
#[verifier::ext_equal]
pub struct TickModel {
    pub state: GameModel,
    pub events: int,
}

/// The authoritative state of a session: the configuration, the ball, the
/// two paddles, the static surfaces, and the scoreboard.
pub struct GameState {
    pub config: Config,
    pub ball: Ball,
    pub paddle1: Paddle,
    pub paddle2: Paddle,
    pub surfaces: Vec<Surface>,
    pub score: Scoreboard,
}

/// The models of a sequence of surfaces, in order.
pub open spec fn surface_models(v: Seq<Surface>) -> Seq<SurfaceModel> {
    v.map_values(|s: Surface| s@)
}

impl View for GameState {
    type V = GameModel;

    open spec fn view(&self) -> GameModel {
        GameModel {
            config: self.config@,
            ball: self.ball@,
            paddle1: self.paddle1@,
            paddle2: self.paddle2@,
            surfaces: surface_models(self.surfaces@),
            score: self.score@,
        }
    }
}

/// Well-formed session state: a usable configuration, every body within
/// the world's bounds, paddles within their travel bounds, scores within
/// the counters' range, and a bounded surface registry.
pub open spec fn wf(g: GameModel) -> bool {
    &&& geometry_ok(g.config)
    &&& ball_ok(g.ball)
    &&& paddle_ok(g.paddle1)
    &&& paddle_ok(g.paddle2)
    &&& paddle_lo(g.config) <= g.paddle1.pos.y <= paddle_hi(g.config)
    &&& paddle_lo(g.config) <= g.paddle2.pos.y <= paddle_hi(g.config)
    &&& 0 <= g.score.p1 <= usize::MAX
    &&& 0 <= g.score.p2 <= usize::MAX
    &&& g.surfaces.len() <= MAX_SURFACES
    &&& forall|i: int| 0 <= i < g.surfaces.len() ==> surface_ok(#[trigger] g.surfaces[i])
}

/// The four surfaces of a fresh arena: scoring walls on the left and
/// right edges, bounce walls along the top and bottom.
pub open spec fn initial_surfaces(c: ConfigModel) -> Seq<SurfaceModel> {
    seq![
        SurfaceModel {
            pos: V2 { x: -c.arena_half_w, y: 0 },
            half: V2 { x: c.wall_half_depth, y: c.arena_half_h },
            kind: SurfaceKind::ScoreLeft,
        },
        SurfaceModel {
            pos: V2 { x: c.arena_half_w, y: 0 },
            half: V2 { x: c.wall_half_depth, y: c.arena_half_h },
            kind: SurfaceKind::ScoreRight,
        },
        SurfaceModel {
            pos: V2 { x: 0, y: c.arena_half_h },
            half: V2 { x: c.arena_half_w, y: c.wall_half_depth },
            kind: SurfaceKind::Bounce,
        },
        SurfaceModel {
            pos: V2 { x: 0, y: -c.arena_half_h },
            half: V2 { x: c.arena_half_w, y: c.wall_half_depth },
            kind: SurfaceKind::Bounce,
        },
    ]
}

/// A fresh session from a valid configuration: the ball at the centre
/// with the launch velocity, the paddles at their starting heights, the
/// four arena surfaces, and both scores at zero.
pub open spec fn initial_model(c: ConfigModel) -> GameModel {
    GameModel {
        config: c,
        ball: BallModel { pos: V2 { x: 0, y: 0 }, vel: c.ball_vel, half: c.ball_half },
        paddle1: PaddleModel {
            pos: V2 { x: -(c.arena_half_w - c.paddle_inset), y: c.paddle1_start_y },
            half: c.paddle_half,
        },
        paddle2: PaddleModel {
            pos: V2 { x: c.arena_half_w - c.paddle_inset, y: c.paddle2_start_y },
            half: c.paddle_half,
        },
        surfaces: initial_surfaces(c),
        score: ScoreModel { p1: 0, p2: 0 },
    }
}

/// The state after paddle motion: each paddle's vertical centre moves by
/// its player's intent times the paddle speed, clamped to the travel
/// bounds; nothing else changes.
pub open spec fn moved_players(g: GameModel, keys: KeySnapshot) -> GameModel {
    GameModel {
        config: g.config,
        ball: g.ball,
        paddle1: PaddleModel {
            pos: V2 {
                x: g.paddle1.pos.x,
                y: paddle_moved(
                    g.paddle1.pos.y,
                    p1_intent(keys),
                    g.config.paddle_step,
                    paddle_lo(g.config),
                    paddle_hi(g.config),
                ),
            },
            half: g.paddle1.half,
        },
        paddle2: PaddleModel {
            pos: V2 {
                x: g.paddle2.pos.x,
                y: paddle_moved(
                    g.paddle2.pos.y,
                    p2_intent(keys),
                    g.config.paddle_step,
                    paddle_lo(g.config),
                    paddle_hi(g.config),
                ),
            },
            half: g.paddle2.half,
        },
        surfaces: g.surfaces,
        score: g.score,
    }
}

/// The state after ball motion: the ball's position advances by its
/// velocity on both axes, unconditionally; nothing else changes.
pub open spec fn moved_ball(g: GameModel) -> GameModel {
    GameModel {
        config: g.config,
        ball: BallModel {
            pos: V2 { x: advanced(g.ball.pos.x, g.ball.vel.x), y: advanced(
                g.ball.pos.y,
                g.ball.vel.y,
            ) },
            vel: g.ball.vel,
            half: g.ball.half,
        },
        paddle1: g.paddle1,
        paddle2: g.paddle2,
        surfaces: g.surfaces,
        score: g.score,
    }
}

/// Everything the ball can strike this tick, in resolution order: the two
/// paddles first, then the static surfaces in registry order.
pub open spec fn colliders(g: GameModel) -> Seq<SurfaceModel> {
    seq![paddle_collider(g.paddle1), paddle_collider(g.paddle2)] + g.surfaces
}

/// The state after collision resolution, with the number of collision
/// events emitted.
pub open spec fn resolved(g: GameModel) -> TickModel {
    let r = resolve_all(g.ball, g.score, colliders(g));
    TickModel {
        state: GameModel {
            config: g.config,
            ball: r.ball,
            paddle1: g.paddle1,
            paddle2: g.paddle2,
            surfaces: g.surfaces,
            score: r.score,
        },
        events: r.events,
    }
}

/// One whole tick: paddle motion, then ball motion, then collision
/// resolution with scoring.
pub open spec fn spec_tick(g: GameModel, keys: KeySnapshot) -> TickModel {
    resolved(moved_ball(moved_players(g, keys)))
}

impl GameState {
    /// Starts a session from `config`, building the standard arena around
    /// it.  A malformed configuration is rejected here, before the tick
    /// loop can start: an out-of-range dimension as `BadGeometry`, a
    /// zero launch velocity as `ZeroVelocity`, and an overlarge launch
    /// velocity as `ExcessiveVelocity`, checked in that order.
    pub fn new(config: Config) -> (r: Result<GameState, ConfigError>)
        ensures
            r == Result::<GameState, ConfigError>::Err(ConfigError::BadGeometry) <==> !geometry_ok(
                config@,
            ),
            r == Result::<GameState, ConfigError>::Err(ConfigError::ZeroVelocity) <==> geometry_ok(
                config@,
            ) && config@.ball_vel.x == 0 && config@.ball_vel.y == 0,
            r == Result::<GameState, ConfigError>::Err(ConfigError::ExcessiveVelocity)
                <==> geometry_ok(config@) && !(config@.ball_vel.x == 0 && config@.ball_vel.y == 0)
                && !crate::geom::vel_ok(config@.ball_vel),
            r is Ok <==> config_ok(config@),
            r matches Ok(g) ==> g@ == initial_model(config@) && wf(g@),
    {
        let geometry_good = 0 < config.arena_half_w && config.arena_half_w <= HALF_LIMIT && 0
            < config.arena_half_h && config.arena_half_h <= HALF_LIMIT && 0 <= config.paddle_margin
            && config.paddle_margin <= config.arena_half_h && 0 < config.paddle_step
            && config.paddle_step <= VEL_LIMIT && 0 <= config.paddle_inset && config.paddle_inset
            <= config.arena_half_w && 0 <= config.paddle_half.x && config.paddle_half.x
            <= HALF_LIMIT && 0 <= config.paddle_half.y && config.paddle_half.y <= HALF_LIMIT && 0
            <= config.ball_half.x && config.ball_half.x <= HALF_LIMIT && 0 <= config.ball_half.y
            && config.ball_half.y <= HALF_LIMIT && 0 <= config.wall_half_depth
            && config.wall_half_depth <= HALF_LIMIT && -config.arena_half_h + config.paddle_margin
            <= config.paddle1_start_y && config.paddle1_start_y <= config.arena_half_h
            - config.paddle_margin && -config.arena_half_h + config.paddle_margin
            <= config.paddle2_start_y && config.paddle2_start_y <= config.arena_half_h
            - config.paddle_margin;
        if !geometry_good {
            return Err(ConfigError::BadGeometry);
        }
        if config.ball_vel.x == 0 && config.ball_vel.y == 0 {
            return Err(ConfigError::ZeroVelocity);
        }
        if !(-VEL_LIMIT <= config.ball_vel.x && config.ball_vel.x <= VEL_LIMIT && -VEL_LIMIT
            <= config.ball_vel.y && config.ball_vel.y <= VEL_LIMIT) {
            return Err(ConfigError::ExcessiveVelocity);
        }
        let paddle_x = config.arena_half_w - config.paddle_inset;
        let ball = Ball {
            pos: Vec2 { x: 0, y: 0 },
            vel: config.ball_vel,
            half: config.ball_half,
        };
        let paddle1 = Paddle {
            pos: Vec2 { x: -paddle_x, y: config.paddle1_start_y },
            half: config.paddle_half,
        };
        let paddle2 = Paddle {
            pos: Vec2 { x: paddle_x, y: config.paddle2_start_y },
            half: config.paddle_half,
        };
        let wall_left = Surface {
            pos: Vec2 { x: -config.arena_half_w, y: 0 },
            half: Vec2 { x: config.wall_half_depth, y: config.arena_half_h },
            kind: SurfaceKind::ScoreLeft,
        };
        let wall_right = Surface {
            pos: Vec2 { x: config.arena_half_w, y: 0 },
            half: Vec2 { x: config.wall_half_depth, y: config.arena_half_h },
            kind: SurfaceKind::ScoreRight,
        };
        let wall_top = Surface {
            pos: Vec2 { x: 0, y: config.arena_half_h },
            half: Vec2 { x: config.arena_half_w, y: config.wall_half_depth },
            kind: SurfaceKind::Bounce,
        };
        let wall_bottom = Surface {
            pos: Vec2 { x: 0, y: -config.arena_half_h },
            half: Vec2 { x: config.arena_half_w, y: config.wall_half_depth },
            kind: SurfaceKind::Bounce,
        };
        let mut surfaces: Vec<Surface> = Vec::new();
        surfaces.push(wall_left);
        surfaces.push(wall_right);
        surfaces.push(wall_top);
        surfaces.push(wall_bottom);
        let state = GameState {
            config,
            ball,
            paddle1,
            paddle2,
            surfaces,
            score: Scoreboard::new(),
        };
        proof {
            assert(state.surfaces@ =~= seq![wall_left, wall_right, wall_top, wall_bottom]);
            assert(state@.surfaces =~= initial_surfaces(config@));
            assert(state@ =~= initial_model(config@));
            assert forall|i: int| 0 <= i < state@.surfaces.len() implies surface_ok(
                #[trigger] state@.surfaces[i],
            ) by {
                if i == 0 {
                    assert(state@.surfaces[i] == initial_surfaces(config@)[0]);
                } else if i == 1 {
                    assert(state@.surfaces[i] == initial_surfaces(config@)[1]);
                } else if i == 2 {
                    assert(state@.surfaces[i] == initial_surfaces(config@)[2]);
                } else {
                    assert(state@.surfaces[i] == initial_surfaces(config@)[3]);
                }
            }
        }
        Ok(state)
    }

    /// Applies the players' intents for this tick, moving each paddle's
    /// vertical centre by intent times paddle speed and clamping it to
    /// the arena's travel bounds.  Paddles never move horizontally.
    pub fn move_player(&mut self, keys: KeySnapshot)
        requires
            wf(old(self)@),
        ensures
            final(self)@ == moved_players(old(self)@, keys),
            wf(final(self)@),
    {
        let (direction_player1, direction_player2) = player_intents(keys);
        let lo = -self.config.arena_half_h + self.config.paddle_margin;
        let hi = self.config.arena_half_h - self.config.paddle_margin;
        self.paddle1.pos.y = step_paddle(
            self.paddle1.pos.y,
            direction_player1,
            self.config.paddle_step,
            lo,
            hi,
        );
        self.paddle2.pos.y = step_paddle(
            self.paddle2.pos.y,
            direction_player2,
            self.config.paddle_step,
            lo,
            hi,
        );
        proof {
            assert(self@ =~= moved_players(old(self)@, keys));
        }
    }

    /// Advances the ball by its velocity over one tick, on both axes,
    /// unconditionally; only the world's representation bound saturates
    /// the coordinates.
    pub fn apply_velocity(&mut self)
        requires
            wf(old(self)@),
        ensures
            final(self)@ == moved_ball(old(self)@),
            wf(final(self)@),
    {
        self.ball.pos.x = advance_axis(self.ball.pos.x, self.ball.vel.x);
        self.ball.pos.y = advance_axis(self.ball.pos.y, self.ball.vel.y);
        proof {
            assert(self@ =~= moved_ball(old(self)@));
        }
    }

    /// Resolves the ball against one collider: no overlap, no effect;
    /// otherwise a scoring wall awards the opposing point and recentres
    /// the ball, and the struck side reflects the velocity, guarded by
    /// the direction of motion.  Returns whether a collision occurred.
    fn resolve_against(&mut self, c: Surface) -> (hit: bool)
        requires
            ball_ok(old(self)@.ball),
            surface_ok(c@),
        ensures
            ({
                let r = resolve_one(old(self)@.ball, old(self)@.score, c@);
                &&& final(self)@.ball == r.ball
                &&& final(self)@.score == r.score
                &&& r.events == (if hit {
                    1int
                } else {
                    0int
                })
            }),
            final(self).config == old(self).config,
            final(self).paddle1 == old(self).paddle1,
            final(self).paddle2 == old(self).paddle2,
            final(self).surfaces == old(self).surfaces,
            ball_ok(final(self)@.ball),
            final(self)@.ball.half == old(self)@.ball.half,
    {
        let overlap = crate::geom::test_overlap(self.ball.pos, self.ball.half, c.pos, c.half);
        match overlap {
            None => false,
            Some(side) => {
                match c.kind {
                    SurfaceKind::Bounce => {},
                    SurfaceKind::ScoreLeft => {
                        if self.score.p2_score < usize::MAX {
                            self.score.p2_score = self.score.p2_score + 1;
                        }
                        self.ball.pos = Vec2 { x: 0, y: 0 };
                    },
                    SurfaceKind::ScoreRight => {
                        if self.score.p1_score < usize::MAX {
                            self.score.p1_score = self.score.p1_score + 1;
                        }
                        self.ball.pos = Vec2 { x: 0, y: 0 };
                    },
                }
                match side {
                    crate::geom::Side::Left => {
                        if self.ball.vel.x > 0 {
                            self.ball.vel.x = -self.ball.vel.x;
                        }
                    },
                    crate::geom::Side::Right => {
                        if self.ball.vel.x < 0 {
                            self.ball.vel.x = -self.ball.vel.x;
                        }
                    },
                    crate::geom::Side::Top => {
                        if self.ball.vel.y < 0 {
                            self.ball.vel.y = -self.ball.vel.y;
                        }
                    },
                    crate::geom::Side::Bottom => {
                        if self.ball.vel.y > 0 {
                            self.ball.vel.y = -self.ball.vel.y;
                        }
                    },
                    crate::geom::Side::Inside => {},
                }
                true
            },
        }
    }

    /// Resolves the ball against every collider in order — the paddles
    /// first, then the static surfaces — scoring and reflecting as each
    /// overlap demands, and returns the number of collision events for
    /// the host's audio or visual feedback.
    pub fn check_for_collisions(&mut self) -> (events: usize)
        requires
            wf(old(self)@),
        ensures
            wf(final(self)@),
            ({
                let t = resolved(old(self)@);
                &&& final(self)@ == t.state
                &&& events as int == t.events
            }),
    {
        let ghost g0 = self@;
        let ghost cm = colliders(g0);
        let collider1 = self.paddle1.to_collider();
        let collider2 = self.paddle2.to_collider();
        let mut cols: Vec<Surface> = Vec::new();
        cols.push(collider1);
        cols.push(collider2);
        proof {
            assert(cols@ =~= seq![collider1, collider2]);
            assert(surface_models(cols@) =~= cm.take(2));
        }
        let ghost sview = self.surfaces@;
        let mut j: usize = 0;
        while j < self.surfaces.len()
            invariant
                self@ == g0,
                wf(g0),
                cm == colliders(g0),
                self.surfaces@ == sview,
                j <= sview.len(),
                cols@.len() == 2 + j,
                surface_models(cols@) =~= cm.take(2 + j as int),
            decreases sview.len() - j,
        {
            let c = self.surfaces[j];
            cols.push(c);
            j = j + 1;
            proof {
                assert(cm[2 + (j - 1) as int] == sview.map_values(|s: Surface| s@)[(j - 1) as int]);
                assert(surface_models(cols@) =~= cm.take(2 + j as int));
            }
        }
        proof {
            assert(cm.take(cm.len() as int) =~= cm);
        }
        let n = cols.len();
        let ghost b0 = g0.ball;
        let ghost s0 = g0.score;
        let mut events: usize = 0;
        let mut i: usize = 0;
        proof {
            assert(cm.skip(0) =~= cm);
        }
        while i < n
            invariant
                wf(g0),
                cm == colliders(g0),
                b0 == g0.ball,
                s0 == g0.score,
                n == cols.len(),
                surface_models(cols@) == cm,
                cm.len() == n,
                n <= MAX_SURFACES + 2,
                i <= n,
                events <= i,
                self.config@ == g0.config,
                self.paddle1@ == g0.paddle1,
                self.paddle2@ == g0.paddle2,
                surface_models(self.surfaces@) == g0.surfaces,
                ball_ok(self@.ball),
                self@.ball.half == b0.half,
                resolve_all(b0, s0, cm) == with_events(
                    resolve_all(self@.ball, self@.score, cm.skip(i as int)),
                    events as int,
                ),
            decreases n - i,
        {
            let ghost b_prev = self@.ball;
            let ghost s_prev = self@.score;
            let c = cols[i];
            proof {
                assert(cm[i as int] == surface_models(cols@)[i as int]);
                assert(surface_ok(c@)) by {
                    assert(cm == colliders(g0));
                    if i < 2 {
                        assert(paddle_ok(g0.paddle1) && paddle_ok(g0.paddle2));
                    } else {
                        assert(cm[i as int] == g0.surfaces[i - 2]);
                    }
                }
            }
            let hit = self.resolve_against(c);
            proof {
                lemma_resolve_all_step(b_prev, s_prev, cm, i as int);
            }
            if hit {
                events = events + 1;
            }
            i = i + 1;
        }
        proof {
            assert(cm.skip(n as int) =~= Seq::<SurfaceModel>::empty());
            assert(self@ =~= resolved(g0).state);
        }
        events
    }

    /// One whole fixed tick: paddle motion from the key snapshot, ball
    /// motion from its velocity, then collision resolution with scoring.
    /// Returns the number of collision events emitted this tick.
    pub fn tick(&mut self, keys: KeySnapshot) -> (events: usize)
        requires
            wf(old(self)@),
        ensures
            wf(final(self)@),
            ({
                let t = spec_tick(old(self)@, keys);
                &&& final(self)@ == t.state
                &&& events as int == t.events
            }),
    {
        self.move_player(keys);
        self.apply_velocity();
        self.check_for_collisions()
    }
}

} // verus!
