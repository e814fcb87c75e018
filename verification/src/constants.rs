//! Tuning constants of the simulation, in fixed point (millionths of a
//! world unit, radian or second) unless noted otherwise.

use vstd::prelude::*;

verus! {

/// Half side length of the cubic arena, in whole world units.
pub const MAP_BOX_SCALE: i32 = 16;

/// Size of the fixed actor roster.
pub const MAX_PLAYER_COUNT: usize = 4;

/// Decay constant of horizontal velocity, per second (a whole number).
pub const DRAG_RATE: i64 = 6;

/// Acceleration applied for a full movement intent, units per second
/// squared (a whole number).
pub const MOVE_MULT: i64 = 60;

/// Downward acceleration, units per second squared (a whole number).
pub const GRAVITY: i64 = 25;

/// Vertical velocity granted by a jump, fixed point (8.4375 units/s).
pub const JUMP_VELOCITY: i64 = 8_437_500;

/// Magnitude bound kept on the pitch angle, fixed point (1.6 rad).
pub const PITCH_LIMIT: i64 = 1_600_000;

/// 1/sqrt(2) in fixed point: the per-axis factor of a diagonal intent.
pub const INV_SQRT2: i64 = 707_107;

/// Pi and its fractions in fixed-point radians, for initial orientations.
pub const PI_FX: i64 = 3_141_593;

/// Pi/2 in fixed-point radians.
pub const HALF_PI_FX: i64 = 1_570_796;

/// Pi/4 in fixed-point radians.
pub const QUARTER_PI_FX: i64 = 785_398;

/// Largest arena half-extent the core accepts, fixed point (1000 units);
/// keeps every hitscan product inside an `i128`.
pub const MAX_ARENA_FX: i64 = 1_000_000_000;

/// Largest velocity magnitude per component the integrator accepts, fixed
/// point; far beyond anything the drag model can sustain, present only so
/// the arithmetic provably fits in an `i64`.
pub const VEL_LIMIT: i64 = 1_000_000_000_000;

/// Largest unclamped position magnitude per component the integrator
/// accepts, fixed point; bounds resolution brings it into the arena.
pub const POS_LIMIT: i64 = 1_000_000_000_000_000;

/// Longest tick the integrator accepts, fixed point (10 seconds).
pub const DT_MAX: i64 = 10_000_000;

/// Default pointer sensitivity, fixed point (0.0025).
pub const DEFAULT_SENSITIVITY: i64 = 2_500;

/// Default half length of the crosshair arms, fixed point (0.15 units).
pub const CROSS_WORLD_HALF: i64 = 150_000;

} // verus!
