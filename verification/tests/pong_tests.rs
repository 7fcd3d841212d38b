use pong::ball::{Ball, Side};
use pong::paddle::{Direction, Paddle};
use pong::pong::{Pong, TickInput};
use pong::Playfield;

fn field_800x600() -> Playfield {
    Playfield::new(800_000, 600_000)
}

fn far_paddles() -> (Paddle, Paddle) {
    (Paddle::new(50_000, 250_000), Paddle::new(750_000, 250_000))
}

#[test]
fn paddle_moves_down_and_up() {
    let pf = field_800x600();
    let mut p = Paddle::new(50_000, 250_000);
    p.update_from_move(Direction::Down, &pf);
    assert_eq!(p.y, 260_000);
    p.update_from_move(Direction::Up, &pf);
    assert_eq!(p.y, 250_000);
    assert_eq!(p.x, 50_000);
}

#[test]
fn paddle_clamps_at_both_edges() {
    let pf = field_800x600();
    let mut p = Paddle::new(50_000, 5_000);
    p.update_from_move(Direction::Up, &pf);
    assert_eq!(p.y, 0);
    let mut q = Paddle::new(50_000, 495_000);
    q.update_from_move(Direction::Down, &pf);
    assert_eq!(q.y, 500_000); // 600 - 100 units: bottom edge on the boundary
}

#[test]
fn paddle_hundred_up_moves_clamp_to_zero() {
    // Paddle at y = 250 units fed 100 Up moves at 10 units per tick:
    // it clamps to 0 and never goes negative.
    let pf = field_800x600();
    let mut p = Paddle::new(50_000, 250_000);
    for _ in 0..100 {
        p.update_from_move(Direction::Up, &pf);
        assert!(p.y >= 0);
    }
    assert_eq!(p.y, 0);
}

#[test]
fn ball_advance_is_pure_translation() {
    let mut b = Ball::new(400_000, 300_000);
    b.advance();
    assert_eq!((b.x, b.y), (405_000, 305_000));
    assert_eq!((b.vx, b.vy), (5_000, 5_000));
}

#[test]
fn wall_reflection_bottom() {
    // Ball one unit above the bottom wall moving down faster than one unit
    // per tick: one step leaves it exactly one radius above the wall,
    // moving up.
    let pf = field_800x600();
    let (l, r) = far_paddles();
    let mut b = Ball { x: 400_000, y: 589_000, vx: 0, vy: 4_000 };
    b.advance();
    b.resolve_collision(&l, &r, &pf);
    assert_eq!(b.y, 590_000);
    assert_eq!(b.vy, -4_000);
    assert_eq!(b.x, 400_000);
}

#[test]
fn wall_reflection_top() {
    let pf = field_800x600();
    let (l, r) = far_paddles();
    let mut b = Ball { x: 400_000, y: 12_000, vx: 0, vy: -4_000 };
    b.advance();
    b.resolve_collision(&l, &r, &pf);
    assert_eq!(b.y, 10_000);
    assert_eq!(b.vy, 4_000);
}

#[test]
fn slow_ball_at_wall_does_not_bounce() {
    // At one thousandth of a unit per tick the ball stops short of the wall:
    // no bounce, velocity kept.
    let pf = field_800x600();
    let (l, r) = far_paddles();
    let mut b = Ball { x: 400_000, y: 589_000, vx: 0, vy: 1_000 };
    b.advance();
    b.resolve_collision(&l, &r, &pf);
    assert_eq!(b.y, 590_000);
    assert_eq!(b.vy, 1_000);
}

#[test]
fn paddle_reflection_left() {
    // Next advance puts the ball's left edge inside the left paddle's box:
    // it emerges exactly one radius to the right of the paddle, vx flipped.
    let pf = field_800x600();
    let (l, r) = far_paddles();
    let mut b = Ball { x: 68_000, y: 300_000, vx: -5_000, vy: 0 };
    b.advance();
    b.resolve_collision(&l, &r, &pf);
    assert_eq!(b.x, 70_000); // paddle x + paddle width + radius
    assert_eq!(b.vx, 5_000);
    assert_eq!(b.y, 300_000);
}

#[test]
fn paddle_reflection_right() {
    let pf = field_800x600();
    let (l, r) = far_paddles();
    let mut b = Ball { x: 742_000, y: 300_000, vx: 5_000, vy: 0 };
    b.advance();
    b.resolve_collision(&l, &r, &pf);
    assert_eq!(b.x, 740_000); // paddle x - radius
    assert_eq!(b.vx, -5_000);
}

#[test]
fn ball_misses_paddle_outside_vertical_span() {
    let pf = field_800x600();
    let (l, r) = far_paddles();
    // Same horizontal track as the left reflection, but below the paddle.
    let mut b = Ball { x: 68_000, y: 500_000, vx: -5_000, vy: 0 };
    b.advance();
    b.resolve_collision(&l, &r, &pf);
    assert_eq!(b.x, 63_000);
    assert_eq!(b.vx, -5_000);
}

#[test]
fn goal_detection_sides() {
    let pf = field_800x600();
    let b = Ball { x: 9_000, y: 300_000, vx: 0, vy: 0 };
    assert_eq!(b.goal_side(&pf), Some(Side::Right));
    let b = Ball { x: 795_000, y: 300_000, vx: 0, vy: 0 };
    assert_eq!(b.goal_side(&pf), Some(Side::Left));
    let b = Ball { x: 400_000, y: 300_000, vx: 0, vy: 0 };
    assert_eq!(b.goal_side(&pf), None);
}

#[test]
fn serve_at_sixty_degrees_matches_cosine_and_sine() {
    // Draw 15 without the half-turn flip serves along 60 degrees; one
    // advance lands near (402.5, 304.33) units on the classic field.
    let pf = field_800x600();
    let mut b = Ball::new(0, 0);
    b.reset_with(&pf, 15, false);
    assert_eq!((b.x, b.y), (400_000, 300_000));
    assert_eq!((b.vx, b.vy), (2_500, 4_320));
    b.advance();
    assert_eq!((b.x, b.y), (402_500, 304_320));
    let x_units = b.x as f32 / 1000.0;
    let y_units = b.y as f32 / 1000.0;
    assert!((x_units - (400.0 + 5.0 * 60_f32.to_radians().cos())).abs() < 0.05);
    assert!((y_units - (300.0 + 5.0 * 60_f32.to_radians().sin())).abs() < 0.05);
}

#[test]
fn serve_flip_rotates_half_turn() {
    let pf = field_800x600();
    let mut b = Ball::new(0, 0);
    b.reset_with(&pf, 15, true); // 240 degrees
    assert_eq!((b.vx, b.vy), (-2_500, -4_320));
}

#[test]
fn every_serve_direction_is_steep_and_at_speed() {
    let pf = field_800x600();
    for r in 0..90u32 {
        for flip in [false, true] {
            let mut b = Ball::new(0, 0);
            b.reset_with(&pf, r, flip);
            assert_eq!((b.x, b.y), (400_000, 300_000));
            assert!(b.vy.abs() >= 3_525, "flat serve at draw {r} flip {flip}");
            assert!(b.vy.abs() <= 5_000);
            assert!(b.vx.abs() <= 3_525);
            // The flip decides which vertical half the serve takes.
            assert_eq!(b.vy > 0, !flip);
        }
    }
}

#[test]
fn random_serves_balance_left_and_right() {
    // Over many random serves: always steep, roughly as many serves toward
    // each side, and many distinct directions.
    let pf = field_800x600();
    let mut towards_left = 0u32;
    let mut towards_right = 0u32;
    let mut up = 0u32;
    let mut down = 0u32;
    let mut seen = std::collections::HashSet::new();
    let mut b = Ball::new(0, 0);
    for _ in 0..2000 {
        b.reset(&pf);
        assert!(b.vy.abs() >= 3_525 && b.vy.abs() <= 5_000);
        assert!(b.vx.abs() <= 3_525);
        if b.vx < 0 {
            towards_left += 1;
        } else if b.vx > 0 {
            towards_right += 1;
        }
        if b.vy > 0 {
            down += 1;
        } else {
            up += 1;
        }
        seen.insert((b.vx, b.vy));
    }
    assert!(towards_left >= 700, "left-facing serves: {towards_left}");
    assert!(towards_right >= 700, "right-facing serves: {towards_right}");
    assert!(up >= 700 && down >= 700);
    assert!(seen.len() >= 20, "distinct serve velocities: {}", seen.len());
}

#[test]
fn speed_magnitude_conserved_across_bounces() {
    let pf = field_800x600();
    let (l, r) = far_paddles();
    let mut b = Ball { x: 400_000, y: 300_000, vx: 3_000, vy: 4_000 };
    let sq = |b: &Ball| b.vx * b.vx + b.vy * b.vy;
    let before = sq(&b);
    for _ in 0..60 {
        b.advance();
        b.resolve_collision(&l, &r, &pf);
        assert_eq!(sq(&b), before);
    }
}

#[test]
fn match_construction_places_entities() {
    let m = Pong::new(field_800x600());
    assert_eq!((m.left.x, m.left.y), (50_000, 10_000));
    assert_eq!((m.right.x, m.right.y), (750_000, 10_000));
    assert_eq!((m.score_left, m.score_right), (0, 0));
    assert_eq!((m.ball.x, m.ball.y), (400_000, 300_000));
    assert!(m.ball.vy.abs() >= 3_525);
}

#[test]
fn try_new_rejects_degenerate_field() {
    assert!(Pong::try_new(Playfield::new(10_000, 600_000)).is_none());
    assert!(Pong::try_new(Playfield::new(800_000, 50_000)).is_none());
    let m = Pong::try_new(field_800x600());
    assert!(m.is_some());
    assert_eq!(m.unwrap().score_left, 0);
}

#[test]
fn left_exit_scores_right_once_and_reserves() {
    // Ball exits the left boundary: the right side's score increments by
    // exactly 1, the ball recenters, the left score is unchanged.
    let mut m = Pong::new(field_800x600());
    m.ball = Ball { x: 9_000, y: 300_000, vx: -5_000, vy: 0 };
    let st = m.tick_with(TickInput { left: None, right: None }, 0, false);
    assert_eq!(st.score_right, 1);
    assert_eq!(st.score_left, 0);
    assert_eq!((st.ball.x, st.ball.y), (400_000, 300_000));
    // Draw 0 without flip serves along 45 degrees.
    assert_eq!((m.ball.vx, m.ball.vy), (3_525, 3_525));
}

#[test]
fn right_exit_scores_left() {
    let mut m = Pong::new(field_800x600());
    m.ball = Ball { x: 791_000, y: 300_000, vx: 5_000, vy: 0 };
    let st = m.tick_with(TickInput { left: None, right: None }, 10, true);
    assert_eq!(st.score_left, 1);
    assert_eq!(st.score_right, 0);
    assert_eq!((st.ball.x, st.ball.y), (400_000, 300_000));
}

#[test]
fn tick_honors_paddle_input() {
    let mut m = Pong::new(field_800x600());
    m.ball = Ball { x: 400_000, y: 300_000, vx: 3_000, vy: 4_000 };
    let st = m.tick_with(
        TickInput { left: Some(Direction::Up), right: Some(Direction::Down) },
        0,
        false,
    );
    assert_eq!(st.left_paddle.y, 0); // 10 units up from the start clamps at 0
    assert_eq!(st.right_paddle.y, 20_000);
    assert_eq!((st.ball.x, st.ball.y), (403_000, 304_000));
    assert_eq!((st.score_left, st.score_right), (0, 0));
}

#[test]
fn random_tick_keeps_state_sane() {
    let mut m = Pong::new(field_800x600());
    for i in 0..500 {
        let input = TickInput {
            left: if i % 3 == 0 { Some(Direction::Up) } else { Some(Direction::Down) },
            right: if i % 2 == 0 { Some(Direction::Down) } else { None },
        };
        let st = m.tick(input);
        assert!(st.left_paddle.y >= 0 && st.left_paddle.y <= 500_000);
        assert!(st.right_paddle.y >= 0 && st.right_paddle.y <= 500_000);
        assert!(st.ball.y >= 10_000 && st.ball.y <= 590_000);
        assert!(st.ball.x >= 10_000 && st.ball.x <= 790_000);
    }
}

#[test]
fn resize_reclamps_paddles_and_leaves_ball() {
    let mut m = Pong::new(field_800x600());
    m.left.y = 450_000;
    m.right.y = 100_000;
    let ball_before = (m.ball.x, m.ball.y);
    m.on_resize(Playfield::new(600_000, 500_000));
    assert_eq!(m.left.y, 400_000); // 500 - 100 units
    assert_eq!(m.right.y, 100_000); // still inside: untouched
    assert_eq!((m.ball.x, m.ball.y), ball_before);
    assert_eq!((m.score_left, m.score_right), (0, 0));
}

#[test]
fn state_reports_current_fields() {
    let m = Pong::new(field_800x600());
    let st = m.state();
    assert_eq!(st.ball.x, m.ball.x);
    assert_eq!(st.ball.y, m.ball.y);
    assert_eq!(st.left_paddle.x, m.left.x);
    assert_eq!(st.right_paddle.x, m.right.x);
    assert_eq!(st.score_left, 0);
    assert_eq!(st.score_right, 0);
}
