//! Serve direction and velocity. A serve picks a direction uniformly from a
//! 90-degree band, or the same band rotated a half turn, and launches the
//! ball at the base speed along it.
//!
//! The direction cosine and sine are computed in thousandths with an exact
//! integer rational approximation (`4000 n / (40500 - n)` for
//! `n = d (180 - d)`, the classical quadratic sine approximation), so the
//! serve velocity is a pure function of the drawn degree.

use vstd::prelude::*;
use vstd::arithmetic::div_mod::{
    lemma_div_is_ordered, lemma_div_multiples_vanish, lemma_div_multiples_vanish_fancy,
};
use crate::BALL_SPEED_UNITS;

verus! {

/// The quadratic arch `d (180 - d)`: zero at 0 and 180, peaking at 90.
pub open spec fn arch(d: int) -> int {
    d * (180 - d)
}

/// Sine in thousandths on `[0, 180]` degrees, by the rational approximation.
pub open spec fn sin_half_milli(d: int) -> int {
    4000 * arch(d) / (40500 - arch(d))
}

/// Sine in thousandths on `[0, 360)` degrees.
pub open spec fn sin_milli(d: int) -> int {
    if d <= 180 {
        sin_half_milli(d)
    } else {
        -sin_half_milli(d - 180)
    }
}

/// Cosine in thousandths on `[0, 360)` degrees, as the shifted sine.
pub open spec fn cos_milli(d: int) -> int {
    sin_milli((d + 90) % 360)
}

/// Horizontal serve velocity for direction `d`, in thousandths of a unit.
pub open spec fn serve_vx(d: int) -> int {
    BALL_SPEED_UNITS * cos_milli(d)
}

/// Vertical serve velocity for direction `d`, in thousandths of a unit.
pub open spec fn serve_vy(d: int) -> int {
    BALL_SPEED_UNITS * sin_milli(d)
}

/// The directions a serve may take: the band `[45, 135)` of degrees, or the
/// same band rotated a half turn.
pub open spec fn valid_serve_deg(d: int) -> bool {
    (45 <= d < 135) || (225 <= d < 315)
}

/// Serve direction derived from the two random draws: a degree offset into
/// the band, and a coin for the half-turn rotation.
pub open spec fn serve_deg(r: int, flip: bool) -> int {
    45 + (r % 90) + if flip {
        180 as int
    } else {
        0 as int
    }
}

/// A velocity some legal serve direction produces.
pub open spec fn is_serve_velocity(vx: int, vy: int) -> bool {
    exists|d: int| valid_serve_deg(d) && vx == serve_vx(d) && vy == serve_vy(d)
}

/// On the serve band `[45, 135]` the sine approximation stays within
/// `[705, 1000]` thousandths: a serve is steep, never flat.
pub proof fn lemma_sin_half_band(d: int)
    requires
        45 <= d <= 135,
    ensures
        705 <= sin_half_milli(d) <= 1000,
{
    let n = arch(d);
    assert(6075 <= d * (180 - d) && d * (180 - d) <= 8100) by (nonlinear_arith)
        requires
            45 <= d <= 135,
    ;
    let den = 40500 - n;
    lemma_div_multiples_vanish(705, den);
    lemma_div_is_ordered(den * 705, 4000 * n, den);
    lemma_div_multiples_vanish(1000, den);
    lemma_div_is_ordered(4000 * n, den * 1000, den);
}

/// On the flanks of the half circle (within 45 degrees of either end) the
/// sine approximation stays at most 705 thousandths.
pub proof fn lemma_sin_half_flank(x: int)
    requires
        0 <= x <= 45 || 135 <= x <= 180,
    ensures
        0 <= sin_half_milli(x) <= 705,
{
    assert(0 <= x * (180 - x) && x * (180 - x) <= 6075) by (nonlinear_arith)
        requires
            0 <= x <= 45 || 135 <= x <= 180,
    ;
    let n = arch(x);
    let den = 40500 - n;
    lemma_div_multiples_vanish(0, den);
    lemma_div_is_ordered(den * 0, 4000 * n, den);
    lemma_div_multiples_vanish_fancy(705, den - 1, den);
    lemma_div_is_ordered(4000 * n, den * 705 + (den - 1), den);
}

/// Serve law: every legal serve direction keeps the horizontal speed at
/// most 3.525 units per tick in magnitude — a serve is always within 45
/// degrees of the vertical axis.
pub proof fn lemma_serve_horizontal_speed(d: int)
    requires
        valid_serve_deg(d),
    ensures
        vstd::math::abs(serve_vx(d)) <= 3525,
{
    if 45 <= d < 135 {
        assert((d + 90) % 360 == d + 90);
        assert(cos_milli(d) == sin_milli(d + 90));
        if d + 90 <= 180 {
            lemma_sin_half_flank(d + 90);
        } else {
            lemma_sin_half_flank(d - 90);
        }
    } else {
        if d + 90 < 360 {
            assert((d + 90) % 360 == d + 90);
            assert(cos_milli(d) == sin_milli(d + 90));
            lemma_sin_half_flank(d - 90);
        } else {
            assert((d + 90) % 360 == d - 270);
            assert(cos_milli(d) == sin_milli(d - 270));
            lemma_sin_half_flank(d - 270);
        }
    }
}

/// Serve law: every legal serve direction gives a vertical speed between
/// 3.525 and 5 units per tick in magnitude — no serve is ever within 45
/// degrees of the horizontal axis, so the ball always makes progress toward
/// a wall, and the serve is never a flat rally along one wall.
pub proof fn lemma_serve_vertical_speed(d: int)
    requires
        valid_serve_deg(d),
    ensures
        3525 <= vstd::math::abs(serve_vy(d)) <= 5000,
{
    if d < 135 {
        lemma_sin_half_band(d);
    } else {
        lemma_sin_half_band(d - 180);
    }
}

/// Corollary over any serve outcome: whatever direction the draws picked,
/// the velocity is steep — at least 3.525 units per tick vertically, at
/// most 3.525 horizontally.
pub proof fn lemma_serve_velocity_steep(vx: int, vy: int)
    requires
        is_serve_velocity(vx, vy),
    ensures
        3525 <= vstd::math::abs(vy) <= 5000,
        vstd::math::abs(vx) <= 3525,
{
    let d = choose|d: int| valid_serve_deg(d) && vx == serve_vx(d) && vy == serve_vy(d);
    lemma_serve_vertical_speed(d);
    lemma_serve_horizontal_speed(d);
}

/// Serve symmetry law: the half-turn flip exactly mirrors a serve, so for
/// every band direction the two flip outcomes face opposite horizontal and
/// opposite vertical directions at the same speed.
pub proof fn lemma_flip_mirrors_serve(d: int)
    requires
        45 <= d < 135,
    ensures
        serve_vx(d + 180) == -serve_vx(d),
        serve_vy(d + 180) == -serve_vy(d),
{
    assert(sin_milli(d + 180) == -sin_half_milli(d));
    assert(sin_milli(d) == sin_half_milli(d));
    assert((d + 90) % 360 == d + 90);
    assert(cos_milli(d) == sin_milli(d + 90));
    if d < 90 {
        assert((d + 180 + 90) % 360 == d + 270);
        assert(cos_milli(d + 180) == sin_milli(d + 270));
        assert(sin_milli(d + 270) == -sin_half_milli(d + 90));
        assert(sin_milli(d + 90) == sin_half_milli(d + 90));
    } else if d == 90 {
        assert((d + 180 + 90) % 360 == 0);
        assert(cos_milli(d + 180) == sin_milli(0));
        assert(arch(0) == 0 && arch(180) == 0);
        assert(sin_milli(0) == 0 && sin_milli(180) == 0);
    } else {
        assert((d + 180 + 90) % 360 == d - 90);
        assert(cos_milli(d + 180) == sin_milli(d - 90));
        assert(sin_milli(d - 90) == sin_half_milli(d - 90));
        assert(sin_milli(d + 90) == -sin_half_milli(d - 90));
    }
}

/// Sine of `d` degrees in thousandths, for `d` in `[0, 180]`.
fn sin_half_lookup(d: u32) -> (s: u32)
    requires
        d <= 180,
    ensures
        s == sin_half_milli(d as int),
        s <= 1000,
{
    proof {
        assert(0 <= (d as int) * (180 - d as int) && (d as int) * (180 - d as int) <= 8100)
            by (nonlinear_arith)
            requires
                0 <= d as int <= 180,
        ;
    }
    let n: u32 = d * (180 - d);
    let den: u32 = 40500 - n;
    let q: u32 = (4000 * n) / den;
    proof {
        lemma_div_multiples_vanish(1000, den as int);
        lemma_div_is_ordered(4000 * (n as int), (den as int) * 1000, den as int);
    }
    q
}

/// Sine of `d` degrees in thousandths, for `d` in `[0, 360)`.
fn sin_lookup(d: u32) -> (s: i64)
    requires
        d < 360,
    ensures
        s == sin_milli(d as int),
        -1000 <= s <= 1000,
{
    if d <= 180 {
        sin_half_lookup(d) as i64
    } else {
        -(sin_half_lookup(d - 180) as i64)
    }
}

/// Cosine of `d` degrees in thousandths, for `d` in `[0, 360)`.
fn cos_lookup(d: u32) -> (c: i64)
    requires
        d < 360,
    ensures
        c == cos_milli(d as int),
        -1000 <= c <= 1000,
{
    sin_lookup((d + 90) % 360)
}

/// Serve direction from the two random draws: `45 + (r % 90)` degrees,
/// rotated a half turn when the coin says so.
pub fn serve_deg_of(r: u32, flip: bool) -> (d: u32)
    ensures
        d as int == serve_deg(r as int, flip),
        valid_serve_deg(d as int),
{
    let base: u32 = 45 + r % 90;
    if flip {
        base + 180
    } else {
        base
    }
}

/// Velocity of a serve along direction `d`: the base speed times the
/// direction cosine and sine, exact in thousandths.
pub fn serve_velocity(d: u32) -> (v: (i64, i64))
    requires
        valid_serve_deg(d as int),
    ensures
        v.0 == serve_vx(d as int),
        v.1 == serve_vy(d as int),
        is_serve_velocity(v.0 as int, v.1 as int),
        -5000 <= v.0 <= 5000,
        -5000 <= v.1 <= 5000,
        3525 <= vstd::math::abs(v.1 as int),
{
    let c: i64 = cos_lookup(d);
    let s: i64 = sin_lookup(d);
    let vx: i64 = BALL_SPEED_UNITS * c;
    let vy: i64 = BALL_SPEED_UNITS * s;
    proof {
        lemma_serve_vertical_speed(d as int);
        assert(valid_serve_deg(d as int) && vx as int == serve_vx(d as int) && vy as int
            == serve_vy(d as int));
    }
    (vx, vy)
}

} // verus!
