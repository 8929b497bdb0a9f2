//! Spring math: the damped step that drives every transition animation.
//!
//! A step moves the current offset a fraction of the remaining distance
//! toward its target, with a one-pixel floor so the animation always makes
//! progress, and it never overshoots: a step that would reach or cross the
//! target instead reports completion, and the caller snaps the offset to the
//! target exactly.

use vstd::prelude::*;

verus! {

use crate::geom::{dist, in_range, in_span};

/// The damped step size for a remaining distance `d`: three tenths of the
/// distance, but at least one pixel.
pub open spec fn spec_springy(d: int) -> int {
    let a = if d < 0 {
        -d
    } else {
        d
    };
    let m = 3 * a / 10;
    if m < 1 {
        1
    } else {
        m
    }
}

/// Whether the animation from `offset` toward `target` is complete: either
/// the offset already sits at or beyond the target in the direction of
/// travel, or the next step would reach or cross the target.
pub open spec fn spring_done(offset: int, target: int, left: bool) -> bool {
    if (left && offset <= target) || (!left && offset >= target) {
        true
    } else {
        spec_springy(dist(offset, target)) >= dist(offset, target)
    }
}

/// The offset after one incomplete step (meaningful when `!spring_done`).
pub open spec fn spring_next(offset: int, target: int, left: bool) -> int {
    if left {
        offset - spec_springy(dist(offset, target))
    } else {
        offset + spec_springy(dist(offset, target))
    }
}

/// How many incomplete steps the animation takes before it completes.
/// That this function admits a `decreases` proof is the termination half of
/// the spring law: repeated stepping always reaches completion.
pub open spec fn spring_steps(offset: int, target: int, left: bool) -> nat
    decreases dist(offset, target),
{
    if spring_done(offset, target, left) {
        0
    } else {
        1 + spring_steps(spring_next(offset, target, left), target, left)
    }
}

pub fn springy(offset: i64) -> (amt: i64)
    requires
        in_span(offset as int),
    ensures
        amt == spec_springy(offset as int),
        1 <= amt,
{
    let a: i64 = if offset < 0 {
        -offset
    } else {
        offset
    };
    let m: i64 = ((3 * (a as u64)) / 10) as i64;
    if m < 1 {
        1
    } else {
        m
    }
}

/// One animation frame: `Some(next)` moves strictly closer to `target`
/// without crossing it; `None` means the animation is complete and the
/// caller should snap the offset to `target`. `left` says the target lies to
/// the left of (below) the current offset.
pub fn spring_animate(offset: i64, target: i64, left: bool) -> (r: Option<i64>)
    requires
        in_range(offset as int),
        in_range(target as int),
    ensures
        (r is None) == spring_done(offset as int, target as int, left),
        r matches Some(o) ==> o == spring_next(offset as int, target as int, left),
        r matches Some(o) ==> dist(o as int, target as int) < dist(offset as int, target as int),
        r matches Some(o) ==> (if left {
            target < o < offset
        } else {
            offset < o < target
        }),
        r matches Some(o) ==> in_range(o as int),
{
    if (left && offset <= target) || (!left && offset >= target) {
        return None;
    }
    let d: i64 = if offset >= target {
        offset - target
    } else {
        target - offset
    };
    let amt = springy(d);
    if amt >= d {
        None
    } else if left {
        Some(offset - amt)
    } else {
        Some(offset + amt)
    }
}

/// The contraction half of the spring law: every incomplete step shrinks the
/// remaining distance geometrically (to at most seven tenths of it, up to
/// rounding), so the animation completes in a number of frames logarithmic
/// in the starting distance.
pub proof fn lemma_spring_step_contracts(offset: int, target: int, left: bool)
    requires
        !spring_done(offset, target, left),
    ensures
        dist(spring_next(offset, target, left), target) < dist(offset, target),
        10 * dist(spring_next(offset, target, left), target) <= 7 * dist(offset, target) + 9,
{
    let d = dist(offset, target);
    let amt = spec_springy(d);
    assert(1 <= amt < d);
    assert(dist(spring_next(offset, target, left), target) == d - amt);
    assert(10 * (3 * d / 10) > 3 * d - 10) by {
        vstd::arithmetic::div_mod::lemma_fundamental_div_mod(3 * d, 10);
    }
}

/// The bounding half of the spring law: the number of steps never exceeds
/// the starting distance.
pub proof fn lemma_spring_terminates(offset: int, target: int, left: bool)
    ensures
        spring_steps(offset, target, left) <= dist(offset, target),
    decreases dist(offset, target),
{
    if !spring_done(offset, target, left) {
        lemma_spring_step_contracts(offset, target, left);
        lemma_spring_terminates(spring_next(offset, target, left), target, left);
    }
}

} // verus!
