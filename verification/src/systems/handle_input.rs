//! Pointer look and roster growth: the pointer-controlled actor's yaw and
//! pitch follow the accumulated pointer deltas scaled by the sensitivity,
//! with pitch clamped so the view cannot invert; digit keys grow the
//! roster, never shrinking it.

use vstd::prelude::*;

use crate::components::{Player, PlayerCount};
use crate::constants::PITCH_LIMIT;
use crate::fixed::{clamp_i64, clamped, fx_mul, fxmul};

verus! {

/// Bound accepted on an accumulated pointer delta (fixed point).
pub const MOUSE_LIMIT: i64 = 1_000_000_000_000;

/// Bound accepted on a stored angle; yaw is never clamped, so only the
/// machine forces one.
pub const ANGLE_LIMIT: i64 = 1_000_000_000_000_000;

/// The roster size after the digit keys are applied in order: each
/// pressed digit raises the count to at least its value.
pub open spec fn count_joined(c: int, d1: bool, d2: bool, d3: bool, d4: bool) -> int {
    let c1 = if d1 && c < 1 {
        1int
    } else {
        c
    };
    let c2 = if d2 && c1 < 2 {
        2int
    } else {
        c1
    };
    let c3 = if d3 && c2 < 3 {
        3int
    } else {
        c2
    };
    if d4 && c3 < 4 {
        4int
    } else {
        c3
    }
}

/// Applies one tick of pointer look to the controlled actor and the digit
/// keys to the roster count. `dx`/`dy` are the accumulated pointer deltas
/// and `sens` the sensitivity, all fixed point.
pub fn handle_input(
    p0: &mut Player,
    count: &mut PlayerCount,
    digits: (bool, bool, bool, bool),
    dx: i64,
    dy: i64,
    sens: i64,
)
    requires
        -MOUSE_LIMIT <= dx <= MOUSE_LIMIT,
        -MOUSE_LIMIT <= dy <= MOUSE_LIMIT,
        0 <= sens <= 20_000,
        -ANGLE_LIMIT <= old(p0).yaw <= ANGLE_LIMIT,
        -ANGLE_LIMIT <= old(p0).pitch <= ANGLE_LIMIT,
    ensures
        final(p0).yaw == old(p0).yaw - fxmul(dx as int, sens as int),
        final(p0).pitch == clamped(
            old(p0).pitch - fxmul(dy as int, sens as int),
            -PITCH_LIMIT as int,
            PITCH_LIMIT as int,
        ),
        final(p0).id == old(p0).id,
        final(p0).radius == old(p0).radius,
        final(p0).height == old(p0).height,
        final(p0).color == old(p0).color,
        -PITCH_LIMIT <= final(p0).pitch <= PITCH_LIMIT,
        final(count).0 == count_joined(
            old(count).0 as int,
            digits.0,
            digits.1,
            digits.2,
            digits.3,
        ),
{
    if digits.0 && count.0 < 1 {
        count.0 = 1;
    }
    if digits.1 && count.0 < 2 {
        count.0 = 2;
    }
    if digits.2 && count.0 < 3 {
        count.0 = 3;
    }
    if digits.3 && count.0 < 4 {
        count.0 = 4;
    }
    proof {
        crate::fixed::lemma_fxmul_bounds(dx as int, sens as int, MOUSE_LIMIT as int, 20_000);
        crate::fixed::lemma_fxmul_bounds(dy as int, sens as int, MOUSE_LIMIT as int, 20_000);
        assert(crate::fixed::tdiv(20_000_000_000_000_000, 1_000_000) == 20_000_000_000);
    }
    p0.yaw = p0.yaw - fx_mul(dx, sens);
    p0.pitch = clamp_i64(p0.pitch - fx_mul(dy, sens), -PITCH_LIMIT, PITCH_LIMIT);
}

} // verus!
