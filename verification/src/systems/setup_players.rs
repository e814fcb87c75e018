//! Initial roster: the fixed set of actors, spread over the arena's
//! quadrants, facing inward, each with its own color.

use vstd::prelude::*;

use crate::components::{Actor, Player, Rgb, Velocity};
use crate::constants::{HALF_PI_FX, MAX_PLAYER_COUNT, PI_FX, QUARTER_PI_FX};
use crate::vec3::Vec3x;

verus! {

/// The starting position of actor `i`: eight units out along x, mirrored
/// by the low index bit, and along z, mirrored by both low bits.
pub open spec fn initial_position(i: usize) -> (int, int) {
    let x: int = if i & 1 != 0 {
        -8_000_000
    } else {
        8_000_000
    };
    let z: int = if (i & 1 != 0) != (i & 2 != 0) {
        -8_000_000
    } else {
        8_000_000
    };
    (x, z)
}

/// The starting yaw of actor `i`: a quarter turn, plus a half turn for
/// odd indices, plus a quarter more for the high bit.
pub open spec fn initial_yaw(i: usize) -> int {
    HALF_PI_FX + (if i & 1 != 0 {
        PI_FX as int
    } else {
        0int
    }) + (if i & 2 != 0 {
        HALF_PI_FX as int
    } else {
        0int
    })
}

/// The color of actor `i`: channels dropped by the bits of
/// `1 << (i / 2)`, inverted for even indices.
pub open spec fn initial_color(i: usize) -> Rgb {
    let m = 1usize << (i / 2);
    let r: u8 = if m & 2 != 0 {
        0
    } else {
        0xff
    };
    let g: u8 = if m & 1 != 0 {
        0
    } else {
        0xff
    };
    let b: u8 = if m & 4 != 0 {
        0
    } else {
        0xff
    };
    if i & 1 == 0 {
        Rgb { r: !r, g: !g, b: !b }
    } else {
        Rgb { r, g, b }
    }
}

/// The full starting state of actor `i`: at rest, looking down a quarter
/// turn of pitch, with a half-unit radius and one-and-a-half-unit height.
pub open spec fn initial_actor(i: usize) -> Actor {
    Actor {
        player: Player {
            id: i,
            yaw: initial_yaw(i) as i64,
            pitch: (-QUARTER_PI_FX) as i64,
            radius: 500_000,
            height: 1_500_000,
            color: initial_color(i),
        },
        position: Vec3x { x: initial_position(i).0 as i64, y: 0, z: initial_position(i).1 as i64 },
        velocity: Velocity(Vec3x { x: 0, y: 0, z: 0 }),
    }
}

/// Builds one starting actor.
pub fn spawn_player(i: usize) -> (r: Actor)
    requires
        i < MAX_PLAYER_COUNT,
    ensures
        r == initial_actor(i),
{
    let x: i64 = if i & 1 != 0 {
        -8_000_000
    } else {
        8_000_000
    };
    let z: i64 = if (i & 1 != 0) != (i & 2 != 0) {
        -8_000_000
    } else {
        8_000_000
    };
    let yaw: i64 = HALF_PI_FX + (if i & 1 != 0 {
        PI_FX
    } else {
        0
    }) + (if i & 2 != 0 {
        HALF_PI_FX
    } else {
        0
    });
    let m: usize = 1usize << (i / 2);
    let mut r: u8 = if m & 2 != 0 {
        0
    } else {
        0xff
    };
    let mut g: u8 = if m & 1 != 0 {
        0
    } else {
        0xff
    };
    let mut b: u8 = if m & 4 != 0 {
        0
    } else {
        0xff
    };
    if i & 1 == 0 {
        r = !r;
        g = !g;
        b = !b;
    }
    Actor {
        player: Player {
            id: i,
            yaw,
            pitch: -QUARTER_PI_FX,
            radius: 500_000,
            height: 1_500_000,
            color: Rgb { r, g, b },
        },
        position: Vec3x { x, y: 0, z },
        velocity: Velocity(Vec3x { x: 0, y: 0, z: 0 }),
    }
}

/// Builds the whole starting roster.
pub fn setup_players() -> (r: Vec<Actor>)
    ensures
        r.len() == MAX_PLAYER_COUNT,
        forall|k: int| 0 <= k < MAX_PLAYER_COUNT ==> #[trigger] r[k] == initial_actor(k as usize),
{
    let mut out: Vec<Actor> = Vec::new();
    let mut i: usize = 0;
    while i < MAX_PLAYER_COUNT
        invariant
            i <= MAX_PLAYER_COUNT,
            out.len() == i,
            forall|k: int| 0 <= k < i ==> #[trigger] out[k] == initial_actor(k as usize),
        decreases MAX_PLAYER_COUNT - i,
    {
        out.push(spawn_player(i));
        i = i + 1;
    }
    out
}

} // verus!
