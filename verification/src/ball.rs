//! Ball entity: translation by its per-tick velocity, collision response
//! against the paddles and the horizontal walls, and goal detection.
//!
//! A bounce only flips the sign of one velocity component and repositions the
//! ball just outside what it hit, so the speed magnitude is conserved by
//! every tick; only a serve assigns a fresh velocity.

use vstd::prelude::*;
use crate::geom::{edge_in_span, spans_overlap};
use crate::paddle::PaddleV;
use crate::{Playfield, PlayfieldV, field_wf};
use crate::{BALL_RADIUS, BALL_SPEED, MAX_DIM, PADDLE_HEIGHT, PADDLE_WIDTH};
use crate::paddle::Paddle;
use crate::serve::{serve_vx, serve_vy, serve_deg, is_serve_velocity, serve_deg_of, serve_velocity};
use crate::rng::{rand_below, rand_flip};

verus! {

/// The side that scores on a goal event.
#[derive(Clone, Copy, PartialEq, Eq, Structural, Debug)]
pub enum Side {
    Left,
    Right,
}

/// Ball state: `(x, y)` is the center, `(vx, vy)` the velocity per tick.
#[derive(Clone, Copy, PartialEq, Eq, Structural, Debug)]
pub struct Ball {
    pub x: i64,
    pub y: i64,
    pub vx: i64,
    pub vy: i64,
}

/// Mathematical model of a ball.
pub ghost struct BallV {
    pub x: int,
    pub y: int,
    pub vx: int,
    pub vy: int,
}

impl View for Ball {
    type V = BallV;

    open spec fn view(&self) -> BallV {
        BallV { x: self.x as int, y: self.y as int, vx: self.vx as int, vy: self.vy as int }
    }
}

/// A ball the simulation can keep advancing: center within the coordinate
/// range and velocity no faster than the base ball speed per component.
pub open spec fn ball_wf(b: BallV) -> bool {
    &&& 0 <= b.x <= MAX_DIM
    &&& 0 <= b.y <= MAX_DIM
    &&& -BALL_SPEED <= b.vx <= BALL_SPEED
    &&& -BALL_SPEED <= b.vy <= BALL_SPEED
}

/// One translation step: the center moves by the velocity.
pub open spec fn advanced(b: BallV) -> BallV {
    BallV { x: b.x + b.vx, y: b.y + b.vy, vx: b.vx, vy: b.vy }
}

/// Hit test against the left paddle: the ball's left edge lies strictly
/// inside the paddle's horizontal span and the vertical extents overlap.
pub open spec fn hits_left(b: BallV, p: PaddleV) -> bool {
    edge_in_span(b.x - BALL_RADIUS, p.x, p.x + PADDLE_WIDTH) && spans_overlap(
        b.y - BALL_RADIUS,
        b.y + BALL_RADIUS,
        p.y,
        p.y + PADDLE_HEIGHT,
    )
}

/// Hit test against the right paddle, mirrored: the ball's right edge lies
/// strictly inside the paddle's horizontal span.
pub open spec fn hits_right(b: BallV, p: PaddleV) -> bool {
    edge_in_span(b.x + BALL_RADIUS, p.x, p.x + PADDLE_WIDTH) && spans_overlap(
        b.y - BALL_RADIUS,
        b.y + BALL_RADIUS,
        p.y,
        p.y + PADDLE_HEIGHT,
    )
}

/// Paddle collision response. The left-paddle test has priority; on a hit
/// the ball is repositioned just outside the paddle and `vx` flips sign.
pub open spec fn paddle_bounced(b: BallV, left: PaddleV, right: PaddleV) -> BallV {
    if hits_left(b, left) {
        BallV { x: left.x + PADDLE_WIDTH + BALL_RADIUS, y: b.y, vx: -b.vx, vy: b.vy }
    } else if hits_right(b, right) {
        BallV { x: right.x - BALL_RADIUS, y: b.y, vx: -b.vx, vy: b.vy }
    } else {
        b
    }
}

/// Wall collision response: when the ball pokes past the top or bottom edge,
/// its center is clamped one radius inside the field and `vy` flips sign.
pub open spec fn wall_bounced(b: BallV, pf: PlayfieldV) -> BallV {
    if b.y - BALL_RADIUS < 0 {
        BallV { x: b.x, y: BALL_RADIUS as int, vx: b.vx, vy: -b.vy }
    } else if b.y + BALL_RADIUS > pf.height {
        BallV { x: b.x, y: pf.height - BALL_RADIUS, vx: b.vx, vy: -b.vy }
    } else {
        b
    }
}

/// Full collision response of one tick: paddles first, then walls.
pub open spec fn resolved(b: BallV, left: PaddleV, right: PaddleV, pf: PlayfieldV) -> BallV {
    wall_bounced(paddle_bounced(b, left, right), pf)
}

/// A whole simulation step of the ball: advance, then resolve collisions.
pub open spec fn stepped(b: BallV, left: PaddleV, right: PaddleV, pf: PlayfieldV) -> BallV {
    resolved(advanced(b), left, right, pf)
}

/// The ball after a sequence of simulation steps, each against the paddle
/// pair `(left, right)` recorded for that step.
pub open spec fn stepped_seq(b: BallV, pads: Seq<(PaddleV, PaddleV)>, pf: PlayfieldV) -> BallV
    decreases pads.len(),
{
    if pads.len() == 0 {
        b
    } else {
        stepped_seq(stepped(b, pads[0].0, pads[0].1, pf), pads.drop_first(), pf)
    }
}

/// Squared speed magnitude; the square root itself is never needed, since
/// conserving the square conserves the magnitude.
pub open spec fn speed_sq(b: BallV) -> int {
    b.vx * b.vx + b.vy * b.vy
}

/// Ball state right after a serve on playfield `pf` along direction `d`:
/// centered, at base speed along `d`.
pub open spec fn served(pf: PlayfieldV, d: int) -> BallV {
    BallV { x: pf.width / 2, y: pf.height / 2, vx: serve_vx(d), vy: serve_vy(d) }
}

/// The goal event a ball position signals, if any: a ball past the left
/// boundary concedes a point to the right player, and mirrored; the
/// left-boundary check has priority. `None` while the ball is in play.
pub open spec fn goal_of(b: BallV, pf: PlayfieldV) -> Option<Side> {
    if b.x - BALL_RADIUS < 0 {
        Some(Side::Right)
    } else if b.x + BALL_RADIUS > pf.width {
        Some(Side::Left)
    } else {
        None
    }
}

/// Speed conservation law: one advance-and-resolve step never changes the
/// squared speed magnitude, whatever the paddles and the playfield are.
pub proof fn lemma_speed_conserved_step(b: BallV, left: PaddleV, right: PaddleV, pf: PlayfieldV)
    ensures
        speed_sq(stepped(b, left, right, pf)) == speed_sq(b),
{
    assert((-b.vx) * (-b.vx) == b.vx * b.vx) by (nonlinear_arith);
    assert((-b.vy) * (-b.vy) == b.vy * b.vy) by (nonlinear_arith);
}

/// Speed conservation law over time: the squared speed magnitude is
/// invariant across any number of advance-and-resolve steps.
pub proof fn lemma_speed_conserved(b: BallV, pads: Seq<(PaddleV, PaddleV)>, pf: PlayfieldV)
    ensures
        speed_sq(stepped_seq(b, pads, pf)) == speed_sq(b),
    decreases pads.len(),
{
    if pads.len() > 0 {
        lemma_speed_conserved_step(b, pads[0].0, pads[0].1, pf);
        lemma_speed_conserved(stepped(b, pads[0].0, pads[0].1, pf), pads.drop_first(), pf);
    }
}

/// Wall reflection law: a ball one unit short of the bottom wall moving down
/// faster than one unit per tick ends the step exactly one radius above the
/// wall, moving up. (A downward speed of at most one unit stops short of the
/// wall instead and keeps its velocity.)
pub proof fn lemma_wall_reflection(b: BallV, left: PaddleV, right: PaddleV, pf: PlayfieldV)
    requires
        field_wf(pf),
        b.y == pf.height - BALL_RADIUS - crate::SCALE,
        b.vy > crate::SCALE,
    ensures
        stepped(b, left, right, pf).y == pf.height - BALL_RADIUS,
        stepped(b, left, right, pf).vy == -b.vy,
        stepped(b, left, right, pf).vy < 0,
{
}

/// Paddle reflection law, left side: when one advance lands the ball inside
/// the left paddle's box, the step leaves it exactly one radius to the right
/// of that paddle with `vx` flipped, whatever else is on the field.
pub proof fn lemma_paddle_reflection_left(b: BallV, left: PaddleV, right: PaddleV, pf: PlayfieldV)
    requires
        hits_left(advanced(b), left),
    ensures
        stepped(b, left, right, pf).x == left.x + PADDLE_WIDTH + BALL_RADIUS,
        stepped(b, left, right, pf).vx == -b.vx,
{
}

/// Paddle reflection law, right side: as on the left, with the ball leaving
/// exactly one radius to the left of the paddle; the left test has priority.
pub proof fn lemma_paddle_reflection_right(b: BallV, left: PaddleV, right: PaddleV, pf: PlayfieldV)
    requires
        !hits_left(advanced(b), left),
        hits_right(advanced(b), right),
    ensures
        stepped(b, left, right, pf).x == right.x - BALL_RADIUS,
        stepped(b, left, right, pf).vx == -b.vx,
{
}

impl Ball {
    /// A ball at `(x, y)` with the initial diagonal velocity.
    pub fn new(x: i64, y: i64) -> (b: Ball)
        ensures
            b@ == (BallV { x: x as int, y: y as int, vx: BALL_SPEED as int, vy: BALL_SPEED as int }),
    {
        Ball { x, y, vx: BALL_SPEED, vy: BALL_SPEED }
    }

    pub open spec fn wf(self) -> bool {
        ball_wf(self@)
    }

    /// Pure translation: move the center by the velocity. Run once per tick,
    /// before the collision checks.
    pub fn advance(&mut self)
        requires
            ball_wf(old(self)@),
        ensures
            final(self)@ == advanced(old(self)@),
    {
        self.x = self.x + self.vx;
        self.y = self.y + self.vy;
    }

    /// Collision response after `advance`: left paddle first, then right
    /// paddle, then the horizontal walls.
    pub fn resolve_collision(&mut self, left: &Paddle, right: &Paddle, pf: &Playfield)
        requires
            field_wf(pf@),
            0 <= left@.x <= MAX_DIM,
            -MAX_DIM <= left@.y <= MAX_DIM,
            0 <= right@.x <= MAX_DIM,
            -MAX_DIM <= right@.y <= MAX_DIM,
            -BALL_SPEED <= old(self)@.x <= MAX_DIM + BALL_SPEED,
            -BALL_SPEED <= old(self)@.y <= MAX_DIM + BALL_SPEED,
            -BALL_SPEED <= old(self)@.vx <= BALL_SPEED,
            -BALL_SPEED <= old(self)@.vy <= BALL_SPEED,
        ensures
            final(self)@ == resolved(old(self)@, left@, right@, pf@),
            BALL_RADIUS <= final(self).y <= pf.height - BALL_RADIUS,
            -BALL_SPEED <= final(self).vx <= BALL_SPEED,
            -BALL_SPEED <= final(self).vy <= BALL_SPEED,
    {
        let hit_left = crate::geom::hit_test(
            self.x - BALL_RADIUS,
            left.x,
            left.x + PADDLE_WIDTH,
            self.y - BALL_RADIUS,
            self.y + BALL_RADIUS,
            left.y,
            left.y + PADDLE_HEIGHT,
        );
        if hit_left {
            self.x = left.x + PADDLE_WIDTH + BALL_RADIUS;
            self.vx = -self.vx;
        } else {
            let hit_right = crate::geom::hit_test(
                self.x + BALL_RADIUS,
                right.x,
                right.x + PADDLE_WIDTH,
                self.y - BALL_RADIUS,
                self.y + BALL_RADIUS,
                right.y,
                right.y + PADDLE_HEIGHT,
            );
            if hit_right {
                self.x = right.x - BALL_RADIUS;
                self.vx = -self.vx;
            }
        }
        if self.y - BALL_RADIUS < 0 {
            self.y = BALL_RADIUS;
            self.vy = -self.vy;
        } else if self.y + BALL_RADIUS > pf.height {
            self.y = pf.height - BALL_RADIUS;
            self.vy = -self.vy;
        }
    }

    /// Deterministic serve: reposition to the playfield center and take the
    /// velocity of the direction the draws `r` (degree offset) and `flip`
    /// (half-turn coin) select. `reset` feeds it random draws; tests may
    /// feed it fixed ones.
    pub fn reset_with(&mut self, pf: &Playfield, r: u32, flip: bool)
        requires
            field_wf(pf@),
        ensures
            final(self)@ == served(pf@, serve_deg(r as int, flip)),
            is_serve_velocity(final(self)@.vx, final(self)@.vy),
            3525 <= vstd::math::abs(final(self)@.vy),
            ball_wf(final(self)@),
    {
        self.x = pf.width / 2;
        self.y = pf.height / 2;
        let d = serve_deg_of(r, flip);
        let v = serve_velocity(d);
        self.vx = v.0;
        self.vy = v.1;
    }

    /// Serve after a goal: reposition to the playfield center and pick a new
    /// direction uniformly from the two legal serve bands, at base speed.
    pub fn reset(&mut self, pf: &Playfield)
        requires
            field_wf(pf@),
        ensures
            exists|r: int, flip: bool|
                0 <= r < 90 && final(self)@ == served(pf@, serve_deg(r, flip)),
            final(self)@.x == pf@.width / 2,
            final(self)@.y == pf@.height / 2,
            is_serve_velocity(final(self)@.vx, final(self)@.vy),
            3525 <= vstd::math::abs(final(self)@.vy),
            ball_wf(final(self)@),
    {
        let r = rand_below(90);
        let flip = rand_flip();
        self.reset_with(pf, r, flip);
        proof {
            assert(0 <= r as int && (r as int) < 90 && self@ == served(
                pf@,
                serve_deg(r as int, flip),
            ));
        }
    }

    /// The goal event the current ball position signals, if any.
    pub fn goal_side(&self, pf: &Playfield) -> (g: Option<Side>)
        requires
            i64::MIN <= self@.x - BALL_RADIUS,
            self@.x + BALL_RADIUS <= i64::MAX,
        ensures
            g == goal_of(self@, pf@),
    {
        if self.x - BALL_RADIUS < 0 {
            Some(Side::Right)
        } else if self.x + BALL_RADIUS > pf.width {
            Some(Side::Left)
        } else {
            None
        }
    }
}

} // verus!
