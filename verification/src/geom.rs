//! Axis-aligned overlap test between a ball and a paddle rectangle: the
//! ball's leading edge must lie strictly inside the paddle's horizontal span
//! while the two vertical extents overlap.

use vstd::prelude::*;

verus! {

/// A single coordinate lies strictly between two bounds.
pub open spec fn edge_in_span(edge: int, lo: int, hi: int) -> bool {
    lo < edge && edge < hi
}

/// Two closed vertical extents overlap in more than a single point.
pub open spec fn spans_overlap(a_lo: int, a_hi: int, b_lo: int, b_hi: int) -> bool {
    a_hi > b_lo && a_lo < b_hi
}

/// Executable form of the ball-versus-rectangle hit test: the ball's leading
/// horizontal edge is strictly inside `[lo, hi]` and the ball's vertical
/// extent `[ball_lo, ball_hi]` overlaps the rectangle's `[rect_lo, rect_hi]`.
pub fn hit_test(
    edge: i64,
    lo: i64,
    hi: i64,
    ball_lo: i64,
    ball_hi: i64,
    rect_lo: i64,
    rect_hi: i64,
) -> (r: bool)
    ensures
        r == (edge_in_span(edge as int, lo as int, hi as int) && spans_overlap(
            ball_lo as int,
            ball_hi as int,
            rect_lo as int,
            rect_hi as int,
        )),
{
    lo < edge && edge < hi && ball_hi > rect_lo && ball_lo < rect_hi
}

} // verus!
