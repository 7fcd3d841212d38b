//! Match controller: owns the playfield, the two paddles, the ball and the
//! score, and advances the simulation one tick per frame.
//!
//! Tick order is fixed: paddle input first, then ball advance and collision
//! response against the post-input paddle positions, then goal evaluation
//! with scoring and a re-serve. A goal concedes the point to the opposing
//! side: a ball leaving past the left boundary raises the right score.

use vstd::prelude::*;
use crate::ball::{advanced, ball_wf, goal_of, resolved, served, Ball, BallV, Side};
use crate::paddle::{moved_y, paddle_wf, Direction, Paddle, PaddleV};
use crate::serve::{is_serve_velocity, serve_deg};
use crate::rng::{rand_below, rand_flip};
use crate::{field_wf, Playfield, PlayfieldV};
use crate::{PADDLE_OFFSET, PADDLE_START_Y};

verus! {

/// Per-tick input: at most one honored direction per side.
#[derive(Clone, Copy, PartialEq, Eq, Structural, Debug)]
pub struct TickInput {
    pub left: Option<Direction>,
    pub right: Option<Direction>,
}

/// A position snapshot of one entity, for the presentation layer.
#[derive(Clone, Copy, PartialEq, Eq, Structural, Debug)]
pub struct EntityPos {
    pub x: i64,
    pub y: i64,
}

/// Read-only snapshot of the whole match after a tick. A projection only:
/// the presentation layer renders it and never writes simulation state.
#[derive(Clone, Copy, PartialEq, Eq, Structural, Debug)]
pub struct MatchState {
    pub ball: EntityPos,
    pub left_paddle: EntityPos,
    pub right_paddle: EntityPos,
    pub score_left: u32,
    pub score_right: u32,
}

/// The aggregate root: playfield, both paddles, ball, score.
#[derive(Clone, Copy, PartialEq, Eq, Structural, Debug)]
pub struct Pong {
    pub playfield: Playfield,
    pub left: Paddle,
    pub right: Paddle,
    pub ball: Ball,
    pub score_left: u32,
    pub score_right: u32,
}

/// Mathematical model of a match.
pub ghost struct PongV {
    pub pf: PlayfieldV,
    pub left: PaddleV,
    pub right: PaddleV,
    pub ball: BallV,
    pub score_left: int,
    pub score_right: int,
}

impl View for Pong {
    type V = PongV;

    open spec fn view(&self) -> PongV {
        PongV {
            pf: self.playfield@,
            left: self.left@,
            right: self.right@,
            ball: self.ball@,
            score_left: self.score_left as int,
            score_right: self.score_right as int,
        }
    }
}

/// Invariant of a running match: legal playfield, both paddles inside it,
/// ball within range at a legal speed.
pub open spec fn match_wf(m: PongV) -> bool {
    &&& field_wf(m.pf)
    &&& paddle_wf(m.left, m.pf)
    &&& paddle_wf(m.right, m.pf)
    &&& ball_wf(m.ball)
}

/// A paddle after honoring one side's input: moved and clamped on `Some`,
/// untouched on `None`.
pub open spec fn moved_paddle(p: PaddleV, inp: Option<Direction>, pf: PlayfieldV) -> PaddleV {
    match inp {
        Some(d) => PaddleV { x: p.x, y: moved_y(p.y, d, pf.height) },
        None => p,
    }
}

/// The ball a tick produces before goal evaluation: advanced, then resolved
/// against the post-input paddle positions.
pub open spec fn tick_ball(m: PongV, inp: TickInput) -> BallV {
    resolved(
        advanced(m.ball),
        moved_paddle(m.left, inp.left, m.pf),
        moved_paddle(m.right, inp.right, m.pf),
        m.pf,
    )
}

/// A score counter after one goal: one more point, saturating at the
/// counter's ceiling instead of wrapping.
pub open spec fn bumped(s: int) -> int {
    if s == u32::MAX {
        s
    } else {
        s + 1
    }
}

/// The whole match state one tick produces, given the two random draws the
/// serve would use if a goal falls.
pub open spec fn spec_tick(m: PongV, inp: TickInput, r: int, flip: bool) -> PongV {
    let left = moved_paddle(m.left, inp.left, m.pf);
    let right = moved_paddle(m.right, inp.right, m.pf);
    let ball = tick_ball(m, inp);
    match goal_of(ball, m.pf) {
        Some(Side::Right) => PongV {
            ball: served(m.pf, serve_deg(r, flip)),
            score_right: bumped(m.score_right),
            left,
            right,
            pf: m.pf,
            score_left: m.score_left,
        },
        Some(Side::Left) => PongV {
            ball: served(m.pf, serve_deg(r, flip)),
            score_left: bumped(m.score_left),
            left,
            right,
            pf: m.pf,
            score_right: m.score_right,
        },
        None => PongV {
            ball,
            left,
            right,
            pf: m.pf,
            score_left: m.score_left,
            score_right: m.score_right,
        },
    }
}

/// Goal law: a ball past the left boundary credits the right side and never
/// the left; a ball past the right boundary (with the left-boundary check
/// taking priority) credits the left side and never the right; while the
/// ball is in play neither score changes. The paddles are never reset.
pub proof fn lemma_goal_scoring(m: PongV, inp: TickInput, r: int, flip: bool)
    ensures
        tick_ball(m, inp).x - crate::BALL_RADIUS < 0 ==> spec_tick(m, inp, r, flip).score_right
            == bumped(m.score_right) && spec_tick(m, inp, r, flip).score_left == m.score_left,
        tick_ball(m, inp).x - crate::BALL_RADIUS >= 0 && tick_ball(m, inp).x + crate::BALL_RADIUS
            > m.pf.width ==> spec_tick(m, inp, r, flip).score_left == bumped(m.score_left)
            && spec_tick(m, inp, r, flip).score_right == m.score_right,
        goal_of(tick_ball(m, inp), m.pf) is None ==> spec_tick(m, inp, r, flip).score_left
            == m.score_left && spec_tick(m, inp, r, flip).score_right == m.score_right
            && spec_tick(m, inp, r, flip).ball == tick_ball(m, inp),
        spec_tick(m, inp, r, flip).left == moved_paddle(m.left, inp.left, m.pf),
        spec_tick(m, inp, r, flip).right == moved_paddle(m.right, inp.right, m.pf),
{
}

/// Score law: a tick never lowers either score, and never changes the
/// playfield; scores are monotone for the whole match.
pub proof fn lemma_score_monotonic(m: PongV, inp: TickInput, r: int, flip: bool)
    ensures
        spec_tick(m, inp, r, flip).score_left >= m.score_left,
        spec_tick(m, inp, r, flip).score_right >= m.score_right,
        spec_tick(m, inp, r, flip).pf == m.pf,
{
}

/// One more point, saturating at the counter's ceiling.
fn bump(s: u32) -> (t: u32)
    ensures
        t as int == bumped(s as int),
{
    if s == u32::MAX {
        s
    } else {
        s + 1
    }
}

impl Pong {
    pub open spec fn wf(self) -> bool {
        match_wf(self@)
    }

    /// What `state` and `tick` report to the presentation layer.
    pub open spec fn snapshot_of(self) -> MatchState {
        MatchState {
            ball: EntityPos { x: self.ball.x, y: self.ball.y },
            left_paddle: EntityPos { x: self.left.x, y: self.left.y },
            right_paddle: EntityPos { x: self.right.x, y: self.right.y },
            score_left: self.score_left,
            score_right: self.score_right,
        }
    }

    /// A new match on `playfield`: paddles at their fixed horizontal offsets
    /// and the starting vertical position, score zero, ball served from the
    /// center with a random direction (the same distribution as `reset`).
    ///
    /// Degenerate geometry (a playfield smaller than `field_wf` allows) is a
    /// rejected precondition; use `try_new` to test it at run time.
    pub fn new(playfield: Playfield) -> (m: Pong)
        requires
            playfield.wf(),
        ensures
            m@.pf == playfield@,
            m@.left == (PaddleV { x: PADDLE_OFFSET as int, y: PADDLE_START_Y as int }),
            m@.right == (PaddleV {
                x: playfield@.width - PADDLE_OFFSET,
                y: PADDLE_START_Y as int,
            }),
            m@.ball.x == playfield@.width / 2,
            m@.ball.y == playfield@.height / 2,
            is_serve_velocity(m@.ball.vx, m@.ball.vy),
            m.score_left == 0,
            m.score_right == 0,
            m.wf(),
    {
        let left = Paddle::new(PADDLE_OFFSET, PADDLE_START_Y);
        let right = Paddle::new(playfield.width - PADDLE_OFFSET, PADDLE_START_Y);
        let mut ball = Ball::new(0, 0);
        ball.reset(&playfield);
        Pong { playfield, left, right, ball, score_left: 0, score_right: 0 }
    }

    /// `new` behind a runtime geometry check: `Some` exactly on playfields
    /// the simulation accepts.
    pub fn try_new(playfield: Playfield) -> (m: Option<Pong>)
        ensures
            match m {
                Some(p) => playfield.wf() && p@.pf == playfield@ && p.wf() && p.score_left == 0
                    && p.score_right == 0,
                None => !playfield.wf(),
            },
    {
        if playfield.valid() {
            Some(Pong::new(playfield))
        } else {
            None
        }
    }

    /// The current read-only snapshot.
    pub fn state(&self) -> (st: MatchState)
        ensures
            st == self.snapshot_of(),
    {
        MatchState {
            ball: EntityPos { x: self.ball.x, y: self.ball.y },
            left_paddle: EntityPos { x: self.left.x, y: self.left.y },
            right_paddle: EntityPos { x: self.right.x, y: self.right.y },
            score_left: self.score_left,
            score_right: self.score_right,
        }
    }

    /// One deterministic simulation tick: paddle input, ball advance and
    /// collision response, goal evaluation with scoring and re-serve. The
    /// draws `r` and `flip` stand in for the serve randomness; `tick` feeds
    /// random ones, tests may feed fixed ones.
    pub fn tick_with(&mut self, input: TickInput, r: u32, flip: bool) -> (st: MatchState)
        requires
            old(self).wf(),
        ensures
            final(self)@ == spec_tick(old(self)@, input, r as int, flip),
            final(self).wf(),
            st == final(self).snapshot_of(),
    {
        if let Some(d) = input.left {
            self.left.update_from_move(d, &self.playfield);
        }
        if let Some(d) = input.right {
            self.right.update_from_move(d, &self.playfield);
        }
        self.ball.advance();
        self.ball.resolve_collision(&self.left, &self.right, &self.playfield);
        match self.ball.goal_side(&self.playfield) {
            Some(Side::Right) => {
                self.score_right = bump(self.score_right);
                self.ball.reset_with(&self.playfield, r, flip);
            },
            Some(Side::Left) => {
                self.score_left = bump(self.score_left);
                self.ball.reset_with(&self.playfield, r, flip);
            },
            None => {},
        }
        self.state()
    }

    /// One simulation tick with random serve draws. Everything but the serve
    /// direction is deterministic: the paddles, the score and the goal
    /// outcome are pinned exactly, and on a goal the new ball is centered
    /// with some legal serve velocity.
    pub fn tick(&mut self, input: TickInput) -> (st: MatchState)
        requires
            old(self).wf(),
        ensures
            exists|r: int, flip: bool|
                0 <= r < 90 && final(self)@ == spec_tick(old(self)@, input, r, flip),
            final(self)@.pf == old(self)@.pf,
            final(self)@.left == moved_paddle(old(self)@.left, input.left, old(self)@.pf),
            final(self)@.right == moved_paddle(old(self)@.right, input.right, old(self)@.pf),
            final(self)@.score_right == (if goal_of(
                tick_ball(old(self)@, input),
                old(self)@.pf,
            ) == Some(Side::Right) {
                bumped(old(self)@.score_right)
            } else {
                old(self)@.score_right
            }),
            final(self)@.score_left == (if goal_of(
                tick_ball(old(self)@, input),
                old(self)@.pf,
            ) == Some(Side::Left) {
                bumped(old(self)@.score_left)
            } else {
                old(self)@.score_left
            }),
            goal_of(tick_ball(old(self)@, input), old(self)@.pf) is None ==> final(self)@.ball
                == tick_ball(old(self)@, input),
            goal_of(tick_ball(old(self)@, input), old(self)@.pf) is Some ==> final(self)@.ball.x
                == old(self)@.pf.width / 2 && final(self)@.ball.y == old(self)@.pf.height / 2
                && is_serve_velocity(final(self)@.ball.vx, final(self)@.ball.vy),
            final(self).wf(),
            st == final(self).snapshot_of(),
    {
        let r = rand_below(90);
        let flip = rand_flip();
        let st = self.tick_with(input, r, flip);
        proof {
            assert(0 <= r as int && (r as int) < 90 && self@ == spec_tick(
                old(self)@,
                input,
                r as int,
                flip,
            ));
        }
        st
    }

    /// Playfield resize: adopt the new bounds and pull both paddles' top
    /// edges back inside them. The ball is not adjusted beyond the clamping
    /// its next bounce applies.
    pub fn on_resize(&mut self, new_field: Playfield)
        requires
            old(self).wf(),
            new_field.wf(),
        ensures
            final(self)@.pf == new_field@,
            final(self)@.left == (PaddleV {
                x: old(self)@.left.x,
                y: crate::paddle::clamp_y(old(self)@.left.y, new_field@.height),
            }),
            final(self)@.right == (PaddleV {
                x: old(self)@.right.x,
                y: crate::paddle::clamp_y(old(self)@.right.y, new_field@.height),
            }),
            final(self)@.ball == old(self)@.ball,
            final(self)@.score_left == old(self)@.score_left,
            final(self)@.score_right == old(self)@.score_right,
            final(self).wf(),
    {
        self.playfield = new_field;
        self.left.clamp_to(&self.playfield);
        self.right.clamp_to(&self.playfield);
    }
}

} // verus!
