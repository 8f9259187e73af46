//! Simulation core of a two-player arcade ball-and-paddle game.
//!
//! The library advances a ball and two paddles one fixed time step at a
//! time, detects axis-aligned collisions between the ball and the solid
//! surfaces of the arena (paddles, bounce walls, scoring walls), resolves
//! them by reflecting the ball's velocity, and awards points when a
//! scoring wall is hit.  Rendering, windowing and key handling are left
//! to a host: the core takes a per-tick snapshot of four logical keys and
//! exports positions and scores.
//!
//! All coordinates are integers measured in sub-units, with
//! [`geom::SUBUNITS_PER_UNIT`] sub-units to one world unit.  That scale
//! equals the number of ticks per second, so a speed given in world units
//! per second is numerically the distance travelled in sub-units per tick,
//! and the whole simulation is exact integer arithmetic.

pub mod body;
pub mod config;
pub mod game;
pub mod geom;
pub mod input;
pub mod laws;
pub mod motion;
pub mod resolve;
pub mod score;
