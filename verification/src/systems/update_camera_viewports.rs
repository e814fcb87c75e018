//! Split-screen viewport partitioning: one player fills the window, two
//! split it side by side, three or four take quarters. Cameras beyond the
//! roster count are inactive and get no viewport.

use vstd::prelude::*;

use crate::constants::MAX_PLAYER_COUNT;

verus! {

/// A rectangle of physical pixels inside the window.
#[derive(Clone, Copy, Debug, PartialEq, Eq, Structural)]
pub struct Viewport {
    pub x: u32,
    pub y: u32,
    pub width: u32,
    pub height: u32,
}

/// Horizontal partitions of the window for a roster of `count`.
pub open spec fn grid_cols(count: int) -> int {
    if count > 1 {
        2int
    } else {
        1int
    }
}

/// Vertical partitions of the window for a roster of `count`.
pub open spec fn grid_rows(count: int) -> int {
    if count > 2 {
        2int
    } else {
        1int
    }
}

/// The viewport of camera `id` in a `w` by `h` window with `count`
/// active players: the window divided into the grid, walked row-major.
pub open spec fn viewport_spec(id: int, count: int, w: int, h: int) -> Viewport {
    let cols = grid_cols(count);
    let rows = grid_rows(count);
    let sw = w / cols;
    let sh = h / rows;
    Viewport {
        x: ((id % cols) * sw) as u32,
        y: ((id / cols) * sh) as u32,
        width: sw as u32,
        height: sh as u32,
    }
}

/// Computes camera `id`'s viewport, or none when the camera is inactive.
pub fn camera_viewport(id: usize, count: usize, w: u32, h: u32) -> (r: Option<Viewport>)
    requires
        id < MAX_PLAYER_COUNT,
        count <= MAX_PLAYER_COUNT,
    ensures
        r == if id < count {
            Some(viewport_spec(id as int, count as int, w as int, h as int))
        } else {
            None::<Viewport>
        },
{
    if id >= count {
        return None;
    }
    let cols: u32 = if count > 1 {
        2
    } else {
        1
    };
    let rows: u32 = if count > 2 {
        2
    } else {
        1
    };
    let sw: u32 = w / cols;
    let sh: u32 = h / rows;
    let mod_x: u32 = (id as u32) % cols;
    let mod_y: u32 = (id as u32) / cols;
    assert(mod_x * sw <= 1 * sw && mod_y * sh <= 1 * sh) by (nonlinear_arith)
        requires
            mod_x <= 1,
            mod_y <= 1,
            0 <= sw,
            0 <= sh,
    ;
    Some(Viewport { x: mod_x * sw, y: mod_y * sh, width: sw, height: sh })
}

} // verus!
