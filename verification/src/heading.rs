//! The ship's heading and its facing direction.
//!
//! The ship turns in fixed steps of 5 degrees, so a heading is one of 72
//! discrete steps per full turn and its facing direction comes from a
//! fixed-point sine table (thousandths, rounded toward zero). Heading 0
//! faces "up"; the direction of heading `s` is
//! `(cos(a + 90°), sin(a + 90°)) = (-sin a, cos a)` for `a = 5° * s`.
//! Every table entry rounds down, so a direction's squared norm never
//! exceeds one (in squared thousandths): the fact the speed ceiling rests
//! on.

use vstd::prelude::*;

verus! {

/// Number of discrete heading steps in a full turn (5 degrees each).
pub const HEADING_STEPS: u8 = 72;

/// A direction component is at most 1000 (one world unit, in thousandths).
pub const DIR_MILLI: i64 = 1000;

/// Largest squared norm of any facing direction (exactly one).
pub const DIR_NORM_SQ_MAX: i64 = 1_000_000;

/// Smallest squared norm of any facing direction; the table rounds down,
/// so a direction can be shorter than one by at most this much.
pub const DIR_NORM_SQ_MIN: i64 = 997_789;

/// Sine of `5° * k` in thousandths, rounded down, for `0 <= k <= 18`.
pub open spec fn sin_milli(k: int) -> int {
    if k <= 0 { 0 }
    else if k == 1 { 87 }
    else if k == 2 { 173 }
    else if k == 3 { 258 }
    else if k == 4 { 342 }
    else if k == 5 { 422 }
    else if k == 6 { 500 }
    else if k == 7 { 573 }
    else if k == 8 { 642 }
    else if k == 9 { 707 }
    else if k == 10 { 766 }
    else if k == 11 { 819 }
    else if k == 12 { 866 }
    else if k == 13 { 906 }
    else if k == 14 { 939 }
    else if k == 15 { 965 }
    else if k == 16 { 984 }
    else if k == 17 { 996 }
    else { 1000 }
}

/// Sine of `5° * s` in thousandths for a whole turn, `0 <= s < 72`,
/// folded onto the first-quadrant table.
pub open spec fn sin_milli_full(s: int) -> int {
    if s <= 18 { sin_milli(s) }
    else if s <= 36 { sin_milli(36 - s) }
    else if s <= 54 { -sin_milli(s - 36) }
    else { -sin_milli(72 - s) }
}

/// X component of the facing direction of heading step `s`: `-sin a`.
pub open spec fn dir_x_milli(s: int) -> int {
    -sin_milli_full(s)
}

/// Y component of the facing direction of heading step `s`:
/// `cos a = sin(a + 90°)`.
pub open spec fn dir_y_milli(s: int) -> int {
    if s < 54 { sin_milli_full(s + 18) } else { sin_milli_full(s - 54) }
}

/// Each first-quadrant pair `(sin, cos)` has squared norm within
/// `[DIR_NORM_SQ_MIN, DIR_NORM_SQ_MAX]`.
proof fn lemma_sin_pair_norm_sq(k: int)
    requires
        0 <= k <= 18,
    ensures
        DIR_NORM_SQ_MIN
            <= sin_milli(k) * sin_milli(k) + sin_milli(18 - k) * sin_milli(18 - k)
            <= DIR_NORM_SQ_MAX,
{
}

/// Squared-norm bounds for the facing direction of every heading step.
pub proof fn lemma_dir_norm_sq(s: int)
    requires
        0 <= s < 72,
    ensures
        DIR_NORM_SQ_MIN
            <= dir_x_milli(s) * dir_x_milli(s) + dir_y_milli(s) * dir_y_milli(s)
            <= DIR_NORM_SQ_MAX,
        -DIR_MILLI <= dir_x_milli(s) <= DIR_MILLI,
        -DIR_MILLI <= dir_y_milli(s) <= DIR_MILLI,
{
    let k: int = if s <= 18 { s } else if s <= 36 { 36 - s } else if s <= 54 { s - 36 } else {
        72 - s
    };
    lemma_sin_pair_norm_sq(k);
    let a = sin_milli(k);
    let b = sin_milli(18 - k);
    let x = dir_x_milli(s);
    let y = dir_y_milli(s);
    assert(x == a || x == -a);
    assert(y == b || y == -b);
    assert(x * x == a * a) by (nonlinear_arith)
        requires
            x == a || x == -a,
    ;
    assert(y * y == b * b) by (nonlinear_arith)
        requires
            y == b || y == -b,
    ;
}

/// First-quadrant sine table, executable form.
fn sin_lookup(k: u8) -> (r: i64)
    requires
        k <= 18,
    ensures
        r == sin_milli(k as int),
{
    if k == 0 { 0 }
    else if k == 1 { 87 }
    else if k == 2 { 173 }
    else if k == 3 { 258 }
    else if k == 4 { 342 }
    else if k == 5 { 422 }
    else if k == 6 { 500 }
    else if k == 7 { 573 }
    else if k == 8 { 642 }
    else if k == 9 { 707 }
    else if k == 10 { 766 }
    else if k == 11 { 819 }
    else if k == 12 { 866 }
    else if k == 13 { 906 }
    else if k == 14 { 939 }
    else if k == 15 { 965 }
    else if k == 16 { 984 }
    else if k == 17 { 996 }
    else { 1000 }
}

/// Sine over a whole turn, executable form.
fn sin_full(s: u8) -> (r: i64)
    requires
        s < 72,
    ensures
        r == sin_milli_full(s as int),
{
    if s <= 18 { sin_lookup(s) }
    else if s <= 36 { sin_lookup(36 - s) }
    else if s <= 54 { -sin_lookup(s - 36) }
    else { -sin_lookup(72 - s) }
}

/// Facing direction of heading step `s`, in thousandths of a world unit.
pub fn direction_milli(s: u8) -> (d: (i64, i64))
    requires
        s < HEADING_STEPS,
    ensures
        d.0 == dir_x_milli(s as int),
        d.1 == dir_y_milli(s as int),
{
    let x: i64 = -sin_full(s);
    let y: i64 = if s < 54 { sin_full(s + 18) } else { sin_full(s - 54) };
    (x, y)
}

/// One heading step to the left (counterclockwise).
pub fn step_left(s: u8) -> (r: u8)
    requires
        s < HEADING_STEPS,
    ensures
        r == (s as int + 1) % 72,
        r < HEADING_STEPS,
{
    if s == 71 { 0 } else { s + 1 }
}

/// One heading step to the right (clockwise).
pub fn step_right(s: u8) -> (r: u8)
    requires
        s < HEADING_STEPS,
    ensures
        r == (s as int + 71) % 72,
        r < HEADING_STEPS,
{
    if s == 0 { 71 } else { s - 1 }
}

} // verus!
