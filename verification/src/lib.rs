//! Deterministic core of a two-player ball-and-paddle game driven by a
//! rollback-netcode scheduler: the simulation state, its per-frame transition,
//! the input bitmask model, a serializable snapshot with a Fletcher-16
//! checksum, and the fixed-timestep pacing bookkeeping.
use vstd::prelude::*;

pub mod ball;
pub mod game_state;
pub mod helpers;
pub mod input;
pub mod pacing;
pub mod paddle;
pub mod screen_state;

verus! {

/// Smallest y-coordinate of the playing field; the ball bounces below it.
pub const EDGE_BOTTOM: i32 = 1;

/// Smallest x-coordinate of the playing field; the ball bounces past it.
pub const EDGE_LEFT: i32 = 1;

/// Largest x-coordinate of the playing field; the ball bounces past it.
pub const EDGE_RIGHT: i32 = 502;

/// Largest y-coordinate of the playing field; the ball bounces above it.
pub const EDGE_TOP: i32 = 332;

/// Magnitude of each ball velocity component at match start.
pub const INITIAL_VELOCITY: i32 = 3;

/// Input bit meaning "move the left paddle up".
pub const INPUT_LEFT_PADDLE_UP: u8 = 0b0001;

/// Input bit meaning "move the left paddle down".
pub const INPUT_LEFT_PADDLE_DOWN: u8 = 0b0010;

/// Input bit meaning "move the right paddle down".
pub const INPUT_RIGHT_PADDLE_DOWN: u8 = 0b0100;

/// Input bit meaning "move the right paddle up".
pub const INPUT_RIGHT_PADDLE_UP: u8 = 0b1000;

/// X-coordinate of the field's center, where the ball is placed after a score.
pub const MIDDLE_POS_X: i32 = 256;

/// Y-coordinate of the field's center, where the ball is placed after a score.
pub const MIDDLE_POS_Y: i32 = 171;

/// Frame number standing for "no frame yet" in the checksum bookkeeping.
pub const NULL_FRAME: i32 = -1;

/// Lowest position a paddle may occupy.
pub const PADDLE_BOTTOM_LIMIT: i32 = 1;

/// Height of a paddle, in field units.
pub const PADDLE_HEIGHT: i32 = 50;

/// Distance a paddle travels in one frame while a direction is held.
pub const PADDLE_STEP: i32 = 2;

/// Highest position a paddle may occupy.
pub const PADDLE_TOP_LIMIT: i32 = 291;

/// Score at which a paddle wins the match.
pub const SCORE_MAX_VALUE: i32 = 5;

} // verus!
