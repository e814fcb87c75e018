//! The simulation's data model: actors with orientation and body size,
//! their velocities, the arena, per-tick intents, and the small resources
//! (mode, settings, roster size) that the surrounding program reads.

use vstd::prelude::*;

use crate::constants::{MAX_ARENA_FX, MAX_PLAYER_COUNT, POS_LIMIT, VEL_LIMIT};
use crate::fixed::FX_ONE;
use crate::vec3::Vec3x;

verus! {

/// An actor's display color, one byte per channel.
#[derive(Clone, Copy, Debug, PartialEq, Eq, Structural)]
pub struct Rgb {
    pub r: u8,
    pub g: u8,
    pub b: u8,
}

/// A controllable actor: stable id, orientation in fixed-point radians,
/// body size in fixed-point units, and a display color.
#[derive(Clone, Copy, Debug, PartialEq, Eq, Structural)]
pub struct Player {
    pub id: usize,
    pub yaw: i64,
    pub pitch: i64,
    pub radius: i64,
    pub height: i64,
    pub color: Rgb,
}

impl Player {
    /// Positive body with the head sphere inside the capsule: the radius
    /// is positive and no larger than the height.
    pub open spec fn wf(self) -> bool {
        0 < self.radius <= self.height <= MAX_ARENA_FX
    }
}

/// An actor's velocity, fixed-point units per second.
#[derive(Clone, Copy, Debug, PartialEq, Eq, Structural)]
pub struct Velocity(pub Vec3x);

/// One roster entry: an actor together with its mutable position and
/// velocity.
#[derive(Clone, Copy, Debug, PartialEq, Eq, Structural)]
pub struct Actor {
    pub player: Player,
    pub position: Vec3x,
    pub velocity: Velocity,
}

/// The cubic arena, centered at the origin.
#[derive(Clone, Copy, Debug, PartialEq, Eq, Structural)]
pub struct ArenaBounds {
    /// Half side length, fixed point.
    pub scale: i64,
}

impl ArenaBounds {
    /// A positive, even half-extent small enough that every product the
    /// core forms stays representable.
    pub open spec fn wf(self) -> bool {
        &&& 0 < self.scale <= MAX_ARENA_FX
        &&& self.scale % 2 == 0
    }
}

/// The resolved boolean controls of one actor for one tick.
#[derive(Clone, Copy, Debug, PartialEq, Eq, Structural)]
pub struct Intent {
    pub forward: bool,
    pub back: bool,
    pub left: bool,
    pub right: bool,
    pub jump: bool,
    pub fire: bool,
}

/// A sine/cosine pair of some angle, fixed point; supplied by the caller,
/// which owns the trigonometry.
#[derive(Clone, Copy, Debug, PartialEq, Eq, Structural)]
pub struct YawTrig {
    pub sin: i64,
    pub cos: i64,
}

impl YawTrig {
    /// Both coordinates lie within the unit interval.
    pub open spec fn wf(self) -> bool {
        &&& -FX_ONE <= self.sin <= FX_ONE
        &&& -FX_ONE <= self.cos <= FX_ONE
    }
}

/// What the simulation is currently doing.
#[derive(Clone, Copy, Debug, PartialEq, Eq, Structural)]
pub enum AppMode {
    Playing,
    Menu,
    Settings,
}

/// The current application mode, as a mutable resource.
#[derive(Clone, Copy, Debug, PartialEq, Eq, Structural)]
pub struct GameMode(pub AppMode);

/// How many actors are under player control.
#[derive(Clone, Copy, Debug, PartialEq, Eq, Structural)]
pub struct PlayerCount(pub usize);

impl PlayerCount {
    /// The roster never exceeds its fixed capacity.
    pub open spec fn wf(self) -> bool {
        1 <= self.0 <= MAX_PLAYER_COUNT
    }
}

/// Tunable settings: pointer sensitivity and crosshair arm length, fixed
/// point, each kept inside its adjustment range.
#[derive(Clone, Copy, Debug, PartialEq, Eq, Structural)]
pub struct SettingsRes {
    pub sensitivity: i64,
    pub crosshair_half: i64,
}

impl SettingsRes {
    /// Both settings lie inside the range their adjustment keys enforce.
    pub open spec fn wf(self) -> bool {
        &&& 100 <= self.sensitivity <= 20_000
        &&& 20_000 <= self.crosshair_half <= 1_000_000
    }
}

/// The position's magnitude is small enough to integrate safely.
pub open spec fn position_in_range(p: Vec3x) -> bool {
    p.bounded(POS_LIMIT as int)
}

/// The velocity's magnitude is small enough to integrate safely.
pub open spec fn velocity_in_range(v: Velocity) -> bool {
    v.0.bounded(VEL_LIMIT as int)
}

/// The arena invariant of one actor: each horizontal component within
/// `[-(scale - radius), scale - radius]`, the vertical one within
/// `[height - scale, scale - radius]`.
pub open spec fn position_in_arena(pos: Vec3x, player: Player, arena: ArenaBounds) -> bool {
    &&& -(arena.scale - player.radius) <= pos.x <= arena.scale - player.radius
    &&& player.height - arena.scale <= pos.y <= arena.scale - player.radius
    &&& -(arena.scale - player.radius) <= pos.z <= arena.scale - player.radius
}

/// An actor's body fits the arena: its sphere radii and height leave the
/// clamp region of every axis nonempty.
pub open spec fn body_fits(player: Player, arena: ArenaBounds) -> bool {
    &&& player.wf()
    &&& arena.wf()
    &&& player.height + player.radius <= 2 * arena.scale
}

} // verus!
