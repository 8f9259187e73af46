//! Scenario tests of the tick pipeline: scoring, bouncing, paddle travel
//! and the reflection guard.

use pong_core::config::Config;
use pong_core::game::GameState;
use pong_core::geom::Vec2;
use pong_core::input::{player_intents, KeySnapshot};

fn v(x: i64, y: i64) -> Vec2 {
    Vec2 { x, y }
}

fn no_keys() -> KeySnapshot {
    KeySnapshot { p1_up: false, p1_down: false, p2_up: false, p2_down: false }
}

/// A standard arena with both paddles parked high, out of a ball's path
/// along the horizontal centre line.
fn world_with_parked_paddles(ball_vel: Vec2) -> GameState {
    let mut c = Config::standard(ball_vel);
    c.paddle1_start_y = 16800;
    c.paddle2_start_y = 16800;
    GameState::new(c).unwrap()
}

#[test]
fn intents_follow_keys() {
    let both = KeySnapshot { p1_up: true, p1_down: true, p2_up: false, p2_down: false };
    assert_eq!(player_intents(both), (0, 0));
    let up1 = KeySnapshot { p1_up: true, p1_down: false, p2_up: false, p2_down: false };
    assert_eq!(player_intents(up1), (1, 0));
    let down2 = KeySnapshot { p1_up: false, p1_down: false, p2_up: false, p2_down: true };
    assert_eq!(player_intents(down2), (0, -1));
    let mixed = KeySnapshot { p1_up: false, p1_down: true, p2_up: true, p2_down: false };
    assert_eq!(player_intents(mixed), (-1, 1));
}

#[test]
fn right_scoring_wall_awards_player_one() {
    // Ball at the centre moving right at 300 units/sec towards the
    // scoring wall at half the arena's width.
    let mut g = world_with_parked_paddles(v(300, 0));
    for _ in 0..125 {
        g.tick(no_keys());
    }
    assert_eq!(g.score.p1_score, 0);
    assert_eq!(g.ball.pos, v(37500, 0));
    let events = g.tick(no_keys());
    // Exactly one collision: one point, and the ball is back at the
    // centre with its speed kept and its direction reflected.
    assert_eq!(events, 1);
    assert_eq!(g.score.p1_score, 1);
    assert_eq!(g.score.p2_score, 0);
    assert_eq!(g.ball.pos, v(0, 0));
    assert_eq!(g.ball.vel, v(-300, 0));
}

#[test]
fn left_scoring_wall_awards_player_two() {
    let mut g = world_with_parked_paddles(v(-300, 0));
    for _ in 0..126 {
        g.tick(no_keys());
    }
    assert_eq!(g.score.p1_score, 0);
    assert_eq!(g.score.p2_score, 1);
    assert_eq!(g.ball.pos, v(0, 0));
    assert_eq!(g.ball.vel, v(300, 0));
}

#[test]
fn bottom_wall_bounces_without_scoring() {
    // Ball moving straight down at 400 units/sec onto the bottom bounce
    // wall: the y component flips, x stays, nothing is reset or scored.
    let mut g = GameState::new(Config::standard(v(0, -400))).unwrap();
    for _ in 0..52 {
        g.tick(no_keys());
    }
    assert_eq!(g.ball.vel, v(0, -400));
    let events = g.tick(no_keys());
    assert_eq!(events, 1);
    assert_eq!(g.ball.vel, v(0, 400));
    assert_eq!(g.ball.pos, v(0, -21200));
    assert_eq!(g.score.p1_score, 0);
    assert_eq!(g.score.p2_score, 0);
}

#[test]
fn paddle_travel_clamps_at_margin() {
    // Paddle 1 held up for one second (60 ticks) at 500 units/sec in a
    // 720-unit-tall arena with an 80-unit margin: the centre clamps at
    // 280 world units, not 500.
    let mut g = GameState::new(Config::standard(v(300, 0))).unwrap();
    let up = KeySnapshot { p1_up: true, p1_down: false, p2_up: false, p2_down: false };
    for _ in 0..60 {
        g.tick(up);
    }
    assert_eq!(g.paddle1.pos.y, 16800);
    assert_eq!(g.paddle1.pos.x, -37200);
    // The other paddle has not moved.
    assert_eq!(g.paddle2.pos.y, 0);
}

#[test]
fn paddle_travel_clamps_at_lower_margin() {
    let mut g = GameState::new(Config::standard(v(300, 0))).unwrap();
    let down = KeySnapshot { p1_up: false, p1_down: true, p2_up: false, p2_down: false };
    for _ in 0..60 {
        g.tick(down);
    }
    assert_eq!(g.paddle1.pos.y, -16800);
}

#[test]
fn embedded_ball_reflects_exactly_once() {
    // The ball overlaps the bottom wall on two consecutive ticks without
    // anything flipping its velocity back in between: the direction
    // guard lets it reflect on the first tick only.
    let mut g = GameState::new(Config::standard(v(0, -60))).unwrap();
    g.ball.pos = v(0, -21000);
    let events1 = g.tick(no_keys());
    assert_eq!(events1, 1);
    assert_eq!(g.ball.vel, v(0, 60));
    assert_eq!(g.ball.pos, v(0, -21060));
    let events2 = g.tick(no_keys());
    // Still overlapping, so a collision event is emitted, but the
    // velocity is not flipped a second time.
    assert_eq!(events2, 1);
    assert_eq!(g.ball.vel, v(0, 60));
    assert_eq!(g.ball.pos, v(0, -21000));
}

#[test]
fn quiet_tick_emits_no_events() {
    let mut g = GameState::new(Config::standard(v(300, 0))).unwrap();
    assert_eq!(g.tick(no_keys()), 0);
    assert_eq!(g.ball.pos, v(300, 0));
}

#[test]
fn scores_accumulate_over_many_points() {
    // The scoring wall persists, so the same side can score repeatedly:
    // the ball bounces between the two scoring walls for ever.
    let mut g = world_with_parked_paddles(v(300, 0));
    for _ in 0..1000 {
        g.tick(no_keys());
    }
    // Each crossing takes 126 ticks and the scorer alternates, starting
    // with player 1: points fall at ticks 126, 252, ..., 882.
    assert_eq!(g.score.p1_score, 4);
    assert_eq!(g.score.p2_score, 3);
}

#[test]
fn paddle_bounces_the_ball_back() {
    // With the paddles at their default centre height, a ball moving
    // right along the centre line meets paddle 2 before the wall and
    // reflects off it without any score.
    let mut g = GameState::new(Config::standard(v(300, 0))).unwrap();
    let mut bounced = false;
    for _ in 0..200 {
        g.tick(no_keys());
        if g.ball.vel.x < 0 {
            bounced = true;
            break;
        }
    }
    assert!(bounced);
    assert_eq!(g.score.p1_score, 0);
    assert_eq!(g.score.p2_score, 0);
    // The paddle, not the wall, turned it: the ball is still on the
    // playing side of the right scoring wall and was never recentred.
    assert!(g.ball.pos.x >= 36000);
}
