//! Paddle entity: a fixed horizontal position per side and a vertical
//! position moved in fixed steps and clamped to the playfield.

use vstd::prelude::*;
use crate::{Playfield, PlayfieldV, MAX_DIM, PADDLE_HEIGHT, PADDLE_SPEED};

verus! {

/// A vertical move request for one side's paddle.
#[derive(Clone, Copy, PartialEq, Eq, Structural, Debug)]
pub enum Direction {
    Up,
    Down,
}

/// Paddle state: `x` is fixed per side, `y` is the top edge.
#[derive(Clone, Copy, PartialEq, Eq, Structural, Debug)]
pub struct Paddle {
    pub x: i64,
    pub y: i64,
}

/// Mathematical model of a paddle.
pub ghost struct PaddleV {
    pub x: int,
    pub y: int,
}

impl View for Paddle {
    type V = PaddleV;

    open spec fn view(&self) -> PaddleV {
        PaddleV { x: self.x as int, y: self.y as int }
    }
}

/// A paddle inside the playfield: its whole height fits between the top and
/// bottom edges, and its column is within the accepted coordinate range.
pub open spec fn paddle_wf(p: PaddleV, pf: PlayfieldV) -> bool {
    &&& 0 <= p.y <= pf.height - PADDLE_HEIGHT
    &&& 0 <= p.x <= MAX_DIM
}

/// The clamp every paddle update ends with: the top edge is pulled to 0 when
/// above the field, else to `height - PADDLE_HEIGHT` when the bottom edge is
/// below the field.
pub open spec fn clamp_y(y: int, height: int) -> int {
    if y < 0 {
        0
    } else if y + PADDLE_HEIGHT > height {
        height - PADDLE_HEIGHT
    } else {
        y
    }
}

/// Signed step a move request applies to the top edge (up is negative).
pub open spec fn step_of(dir: Direction) -> int {
    match dir {
        Direction::Up => -PADDLE_SPEED as int,
        Direction::Down => PADDLE_SPEED as int,
    }
}

/// Top edge after one move request: step, then clamp.
pub open spec fn moved_y(y: int, dir: Direction, height: int) -> int {
    clamp_y(y + step_of(dir), height)
}

/// Top edge after a whole sequence of move requests.
pub open spec fn moved_y_seq(y: int, moves: Seq<Direction>, height: int) -> int
    decreases moves.len(),
{
    if moves.len() == 0 {
        y
    } else {
        moved_y_seq(moved_y(y, moves[0], height), moves.drop_first(), height)
    }
}

/// Clamping law: from any starting top edge, any non-empty sequence of moves
/// leaves the paddle's top edge within `[0, height - PADDLE_HEIGHT]`, as long
/// as the field is at least one paddle tall.
pub proof fn lemma_moves_stay_clamped(y: int, moves: Seq<Direction>, height: int)
    requires
        height >= PADDLE_HEIGHT,
        moves.len() > 0,
    ensures
        0 <= moved_y_seq(y, moves, height) <= height - PADDLE_HEIGHT,
    decreases moves.len(),
{
    if moves.len() > 1 {
        lemma_moves_stay_clamped(moved_y(y, moves[0], height), moves.drop_first(), height);
    } else {
        assert(moved_y_seq(moved_y(y, moves[0], height), moves.drop_first(), height)
            == moved_y(y, moves[0], height));
    }
}

impl Paddle {
    pub fn new(x: i64, y: i64) -> (p: Paddle)
        ensures
            p.x == x,
            p.y == y,
    {
        Paddle { x, y }
    }

    pub open spec fn wf(self, pf: Playfield) -> bool {
        paddle_wf(self@, pf@)
    }

    /// Shift the top edge by one fixed step in `dir`, then clamp it into the
    /// playfield. Total and silent: no move request ever fails.
    pub fn update_from_move(&mut self, dir: Direction, pf: &Playfield)
        requires
            pf.wf(),
            -MAX_DIM <= old(self).y <= MAX_DIM,
        ensures
            final(self).x == old(self).x,
            final(self)@.y == moved_y(old(self)@.y, dir, pf@.height),
            0 <= final(self).y <= pf.height - PADDLE_HEIGHT,
    {
        match dir {
            Direction::Up => self.y = self.y - PADDLE_SPEED,
            Direction::Down => self.y = self.y + PADDLE_SPEED,
        }
        if self.y < 0 {
            self.y = 0;
        } else if self.y + PADDLE_HEIGHT > pf.height {
            self.y = pf.height - PADDLE_HEIGHT;
        }
    }

    /// Pull the top edge back into the playfield without moving it otherwise;
    /// used when the playfield is resized.
    pub fn clamp_to(&mut self, pf: &Playfield)
        requires
            pf.wf(),
            -MAX_DIM <= old(self).y <= MAX_DIM,
        ensures
            final(self).x == old(self).x,
            final(self)@.y == clamp_y(old(self)@.y, pf@.height),
            0 <= final(self).y <= pf.height - PADDLE_HEIGHT,
    {
        if self.y < 0 {
            self.y = 0;
        } else if self.y + PADDLE_HEIGHT > pf.height {
            self.y = pf.height - PADDLE_HEIGHT;
        }
    }
}

} // verus!
