//! Tests of configuration validation and the construction of a session.

use pong_core::body::SurfaceKind;
use pong_core::config::{Config, ConfigError};
use pong_core::game::GameState;
use pong_core::geom::Vec2;
use pong_core::score::Scoreboard;

fn v(x: i64, y: i64) -> Vec2 {
    Vec2 { x, y }
}

#[test]
fn standard_config_matches_arena() {
    let c = Config::standard(v(300, 0));
    // 1280 by 720 world units, in sub-units of 1/60 unit.
    assert_eq!(c.arena_half_w, 38400);
    assert_eq!(c.arena_half_h, 21600);
    assert_eq!(c.paddle_margin, 4800);
    assert_eq!(c.paddle_step, 500);
    assert_eq!(c.paddle_inset, 1200);
    assert_eq!(c.paddle_half, v(384, 3840));
    assert_eq!(c.wall_half_depth, 300);
    assert_eq!(c.ball_half, v(360, 360));
    assert_eq!(c.ball_vel, v(300, 0));
    assert_eq!(c.paddle1_start_y, 0);
    assert_eq!(c.paddle2_start_y, 0);
}

#[test]
fn new_builds_the_standard_world() {
    let g = GameState::new(Config::standard(v(300, -75))).unwrap();
    assert_eq!(g.ball.pos, v(0, 0));
    assert_eq!(g.ball.vel, v(300, -75));
    assert_eq!(g.ball.half, v(360, 360));
    assert_eq!(g.paddle1.pos, v(-37200, 0));
    assert_eq!(g.paddle2.pos, v(37200, 0));
    assert_eq!(g.paddle1.half, v(384, 3840));
    assert_eq!(g.score.p1_score, 0);
    assert_eq!(g.score.p2_score, 0);
    assert_eq!(g.surfaces.len(), 4);
    assert_eq!(g.surfaces[0].kind, SurfaceKind::ScoreLeft);
    assert_eq!(g.surfaces[0].pos, v(-38400, 0));
    assert_eq!(g.surfaces[0].half, v(300, 21600));
    assert_eq!(g.surfaces[1].kind, SurfaceKind::ScoreRight);
    assert_eq!(g.surfaces[1].pos, v(38400, 0));
    assert_eq!(g.surfaces[2].kind, SurfaceKind::Bounce);
    assert_eq!(g.surfaces[2].pos, v(0, 21600));
    assert_eq!(g.surfaces[2].half, v(38400, 300));
    assert_eq!(g.surfaces[3].kind, SurfaceKind::Bounce);
    assert_eq!(g.surfaces[3].pos, v(0, -21600));
}

#[test]
fn zero_velocity_is_rejected() {
    let r = GameState::new(Config::standard(v(0, 0)));
    assert!(matches!(r, Err(ConfigError::ZeroVelocity)));
}

#[test]
fn bad_geometry_is_rejected() {
    // A margin larger than the arena's half-height leaves no travel room.
    let mut c = Config::standard(v(300, 0));
    c.paddle_margin = c.arena_half_h + 1;
    assert!(matches!(GameState::new(c), Err(ConfigError::BadGeometry)));
    // A non-positive arena is rejected too.
    let mut c2 = Config::standard(v(300, 0));
    c2.arena_half_w = 0;
    assert!(matches!(GameState::new(c2), Err(ConfigError::BadGeometry)));
}

#[test]
fn excessive_velocity_is_rejected() {
    let r = GameState::new(Config::standard(v(0x1_0000_0001, 0)));
    assert!(matches!(r, Err(ConfigError::ExcessiveVelocity)));
}

#[test]
fn geometry_rejection_wins_over_velocity() {
    // Both faults present: geometry is reported.
    let mut c = Config::standard(v(0, 0));
    c.arena_half_h = -5;
    assert!(matches!(GameState::new(c), Err(ConfigError::BadGeometry)));
}

#[test]
fn scoreboard_starts_at_zero() {
    let s = Scoreboard::new();
    assert_eq!(s.p1_score, 0);
    assert_eq!(s.p2_score, 0);
    assert_eq!(s.player1(), 0);
    assert_eq!(s.player2(), 0);
}
