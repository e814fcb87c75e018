//! The arena's wireframe: the cube's twelve edges, then a floor grid of
//! lines two units apart running both ways.

use vstd::prelude::*;

use crate::vec3::Vec3x;

verus! {

/// The wireframe edge list of the arena, endpoint pairs in fixed point.
#[derive(Debug)]
pub struct Edges(pub Vec<(Vec3x, Vec3x)>);

/// The cube corner a three-bit code selects, for half-extent `r`: each
/// bit picks the positive or negative face on its axis.
pub open spec fn corner3(c: int, r: int) -> (int, int, int) {
    (
        if c % 2 == 1 {
            r
        } else {
            -r
        },
        if (c / 2) % 2 == 1 {
            r
        } else {
            -r
        },
        if (c / 4) % 2 == 1 {
            r
        } else {
            -r
        },
    )
}

/// The corner-code pairs of the cube's twelve edges: bottom ring, top
/// ring, then the four verticals.
pub open spec fn box_edge_codes(k: int) -> (int, int) {
    if k == 0 {
        (0int, 1int)
    } else if k == 1 {
        (1int, 3int)
    } else if k == 2 {
        (3int, 2int)
    } else if k == 3 {
        (2int, 0int)
    } else if k == 4 {
        (7int, 6int)
    } else if k == 5 {
        (6int, 4int)
    } else if k == 6 {
        (4int, 5int)
    } else if k == 7 {
        (5int, 7int)
    } else if k == 8 {
        (6int, 2int)
    } else if k == 9 {
        (3int, 7int)
    } else if k == 10 {
        (0int, 4int)
    } else {
        (5int, 1int)
    }
}

/// Endpoints of edge `k` of the list built for half-extent `scale`
/// (whole units): the twelve cube edges, then per grid step four floor
/// lines, alternating the two directions and the two orientations.
pub open spec fn edge_spec(scale: int, k: int) -> ((int, int, int), (int, int, int)) {
    let r = scale * 1_000_000;
    if k < 12 {
        (corner3(box_edge_codes(k).0, r), corner3(box_edge_codes(k).1, r))
    } else {
        let k2 = k - 12;
        let i = k2 / 4;
        let jj = (k2 % 4) / 2;
        let d = 2 * i * 1_000_000;
        let s = if jj == 1 {
            r
        } else {
            -r
        };
        if k2 % 2 == 0 {
            ((s, -r, d - r), (-s, -r, d - r))
        } else {
            ((d - r, -r, s), (d - r, -r, -s))
        }
    }
}

/// An executable edge has exactly the endpoints the spec gives.
pub open spec fn edge_matches(e: (Vec3x, Vec3x), m: ((int, int, int), (int, int, int))) -> bool {
    &&& e.0.x == m.0.0
    &&& e.0.y == m.0.1
    &&& e.0.z == m.0.2
    &&& e.1.x == m.1.0
    &&& e.1.y == m.1.1
    &&& e.1.z == m.1.2
}

/// Builds the cube corner a code selects.
fn corner(c: usize, r: i64) -> (v: Vec3x)
    requires
        c < 8,
        0 <= r <= 1_000_000_000,
    ensures
        v.x == corner3(c as int, r as int).0,
        v.y == corner3(c as int, r as int).1,
        v.z == corner3(c as int, r as int).2,
{
    Vec3x {
        x: if c % 2 == 1 {
            r
        } else {
            -r
        },
        y: if (c / 2) % 2 == 1 {
            r
        } else {
            -r
        },
        z: if (c / 4) % 2 == 1 {
            r
        } else {
            -r
        },
    }
}

/// The corner codes of box edge `k`.
fn box_codes(k: usize) -> (p: (usize, usize))
    requires
        k < 12,
    ensures
        p.0 < 8,
        p.1 < 8,
        p.0 as int == box_edge_codes(k as int).0,
        p.1 as int == box_edge_codes(k as int).1,
{
    if k == 0 {
        (0, 1)
    } else if k == 1 {
        (1, 3)
    } else if k == 2 {
        (3, 2)
    } else if k == 3 {
        (2, 0)
    } else if k == 4 {
        (7, 6)
    } else if k == 5 {
        (6, 4)
    } else if k == 6 {
        (4, 5)
    } else if k == 7 {
        (5, 7)
    } else if k == 8 {
        (6, 2)
    } else if k == 9 {
        (3, 7)
    } else if k == 10 {
        (0, 4)
    } else {
        (5, 1)
    }
}

/// Builds the whole wireframe for an arena of half-extent `scale` whole
/// units: `12 + 4 * scale` edges, each as `edge_spec` lays them out.
pub fn init_edges(scale: i32) -> (r: Edges)
    requires
        0 <= scale <= 1000,
    ensures
        r.0.len() == 12 + 4 * scale,
        forall|k: int|
            0 <= k < r.0.len() ==> edge_matches(
                #[trigger] r.0[k],
                edge_spec(scale as int, k),
            ),
{
    let r_fx: i64 = (scale as i64) * 1_000_000;
    let mut out: Vec<(Vec3x, Vec3x)> = Vec::new();
    let mut e: usize = 0;
    while e < 12
        invariant
            out.len() == e,
            e <= 12,
            r_fx == scale * 1_000_000,
            0 <= scale <= 1000,
            forall|k: int|
                0 <= k < e ==> edge_matches(#[trigger] out[k], edge_spec(scale as int, k)),
        decreases 12 - e,
    {
        let (c0, c1) = box_codes(e);
        out.push((corner(c0, r_fx), corner(c1, r_fx)));
        e = e + 1;
    }
    let n: usize = scale as usize;
    let mut i: usize = 0;
    while i < n
        invariant
            out.len() == 12 + 4 * i,
            i <= n,
            n == scale,
            r_fx == scale * 1_000_000,
            0 <= scale <= 1000,
            forall|k: int|
                0 <= k < out.len() ==> edge_matches(#[trigger] out[k], edge_spec(scale as int, k)),
        decreases n - i,
    {
        let d: i64 = 2 * (i as i64) * 1_000_000;
        let zline: i64 = d - r_fx;
        out.push((
            Vec3x { x: -r_fx, y: -r_fx, z: zline },
            Vec3x { x: r_fx, y: -r_fx, z: zline },
        ));
        out.push((
            Vec3x { x: zline, y: -r_fx, z: -r_fx },
            Vec3x { x: zline, y: -r_fx, z: r_fx },
        ));
        out.push((
            Vec3x { x: r_fx, y: -r_fx, z: zline },
            Vec3x { x: -r_fx, y: -r_fx, z: zline },
        ));
        out.push((
            Vec3x { x: zline, y: -r_fx, z: r_fx },
            Vec3x { x: zline, y: -r_fx, z: -r_fx },
        ));
        i = i + 1;
    }
    Edges(out)
}

} // verus!
