//! Core simulation of a two-player pong match: paddle movement, ball physics
//! with wall and paddle bounces, serve randomization and scoring.
//!
//! All positions and velocities are integers counted in thousandths of a
//! playfield unit (the classic 800x600 window is 800000 x 600000 here), so
//! every rule of the simulation is exact integer arithmetic.

use vstd::prelude::*;

pub mod ball;
pub mod geom;
pub mod paddle;
pub mod pong;
mod rng;
pub mod serve;

verus! {

/// Thousandths of a playfield unit per unit.
pub const SCALE: i64 = 1000;

/// Ball radius: 10 units.
pub const BALL_RADIUS: i64 = 10 * SCALE;

/// Base ball speed in whole units per tick; the serve velocity is this speed
/// times a direction cosine/sine in thousandths.
pub const BALL_SPEED_UNITS: i64 = 5;

/// Base ball speed per tick: 5 units.
pub const BALL_SPEED: i64 = 5 * SCALE;

/// Paddle width: 10 units.
pub const PADDLE_WIDTH: i64 = 10 * SCALE;

/// Paddle height: 100 units.
pub const PADDLE_HEIGHT: i64 = 100 * SCALE;

/// Paddle speed per tick: 10 units.
pub const PADDLE_SPEED: i64 = 10 * SCALE;

/// Horizontal offset of each paddle from its edge of the playfield: 50 units.
pub const PADDLE_OFFSET: i64 = 50 * SCALE;

/// Vertical position of both paddles at match start: 10 units.
pub const PADDLE_START_Y: i64 = 10 * SCALE;

/// Largest playfield dimension the simulation accepts (one million units),
/// small enough that all tick arithmetic stays far from `i64` overflow.
pub const MAX_DIM: i64 = 1000000 * 1000;

/// Rectangular bounds all positions are clamped against.
#[derive(Clone, Copy, PartialEq, Eq, Structural, Debug)]
pub struct Playfield {
    pub width: i64,
    pub height: i64,
}

/// Mathematical model of a playfield: its bounds as unbounded integers.
pub ghost struct PlayfieldV {
    pub width: int,
    pub height: int,
}

impl View for Playfield {
    type V = PlayfieldV;

    open spec fn view(&self) -> PlayfieldV {
        PlayfieldV { width: self.width as int, height: self.height as int }
    }
}

/// A playfield the simulation can run on: wide enough to hold both paddle
/// columns, and tall enough to hold one paddle at its starting position.
/// Anything smaller is a degenerate geometry the constructor rejects.
pub open spec fn field_wf(pf: PlayfieldV) -> bool {
    &&& PADDLE_OFFSET <= pf.width <= MAX_DIM
    &&& PADDLE_HEIGHT + PADDLE_START_Y <= pf.height <= MAX_DIM
}

impl Playfield {
    pub open spec fn wf(self) -> bool {
        field_wf(self@)
    }

    pub fn new(width: i64, height: i64) -> (pf: Playfield)
        ensures
            pf.width == width,
            pf.height == height,
    {
        Playfield { width, height }
    }

    /// Runtime check for `wf`, for callers outside verified code.
    pub fn valid(&self) -> (b: bool)
        ensures
            b == self.wf(),
    {
        PADDLE_OFFSET <= self.width && self.width <= MAX_DIM
            && PADDLE_HEIGHT + PADDLE_START_Y <= self.height && self.height <= MAX_DIM
    }
}

} // verus!
