//! Hitscan resolution and respawn.
//!
//! A shot is an instantaneous ray from the shooter's position along its
//! facing. Every other actor is approximated by two spheres (head and
//! feet) of its own radius; a sphere is hit when its center projects
//! forward onto the ray and the ray passes within the radius. With a
//! unit direction the scalar test would be `vd^2 >= dd - rr`; here both
//! sides are multiplied through by the squared direction norm
//! (`vd^2 >= (dd - rr) * vv`), which is the same test over the reals and
//! exact over the integers, so the direction never needs normalizing.
//! A hit target respawns with each coordinate drawn uniformly from
//! `[-scale/2, scale/2)`; velocity is deliberately left untouched.

use vstd::prelude::*;

use crate::components::{Actor, ArenaBounds, YawTrig};
use crate::constants::MAX_ARENA_FX;
use crate::fixed::{fx_mul, fxmul, lemma_fxmul_bounds, tdiv, FX_ONE};
use crate::vec3::{cross3, dot3, lemma_lagrange_identity, Vec3x};

verus! {

/// Bound accepted on any position coordinate entering the hitscan test;
/// every position inside a well-formed arena satisfies it with room to
/// spare.
pub const HIT_COORD_LIMIT: i64 = 2_000_000_000;

/// Bound accepted on a ray direction component (twice the fixed-point
/// unit).
pub const DIR_LIMIT: i64 = 2_000_000;

/// A vector's components as an integer triple.
pub open spec fn dir3(v: Vec3x) -> (int, int, int) {
    (v.x as int, v.y as int, v.z as int)
}

/// The offset from the ray origin to a sphere center.
pub open spec fn offset3(origin: Vec3x, c: (int, int, int)) -> (int, int, int) {
    (c.0 - origin.x, c.1 - origin.y, c.2 - origin.z)
}

/// The forward ray-sphere test: the center's projection onto the ray is
/// nonnegative and the discriminant test holds, with both sides scaled by
/// the squared direction norm.
pub open spec fn sphere_hit3(origin: Vec3x, dir: Vec3x, c: (int, int, int), radius: int) -> bool {
    let d = offset3(origin, c);
    let v = dir3(dir);
    let vd = dot3(v, d);
    &&& vd >= 0
    &&& vd * vd >= (dot3(d, d) - radius * radius) * dot3(v, v)
}

/// A target's head sphere center: its position.
pub open spec fn head_center(t: Actor) -> (int, int, int) {
    (t.position.x as int, t.position.y as int, t.position.z as int)
}

/// A target's feet sphere center: its position lowered by `height - radius`.
pub open spec fn feet_center(t: Actor) -> (int, int, int) {
    (t.position.x as int, t.position.y + t.player.radius - t.player.height, t.position.z as int)
}

/// A target is hit when either of its spheres is.
pub open spec fn target_hit(origin: Vec3x, dir: Vec3x, t: Actor) -> bool {
    ||| sphere_hit3(origin, dir, head_center(t), t.player.radius as int)
    ||| sphere_hit3(origin, dir, feet_center(t), t.player.radius as int)
}

/// The ray direction of a shot built from spherical angles.
pub open spec fn shot_dir_spec(yaw: YawTrig, pitch: YawTrig) -> Vec3x {
    Vec3x {
        x: (-fxmul(yaw.sin as int, pitch.cos as int)) as i64,
        y: pitch.sin,
        z: (-fxmul(yaw.cos as int, pitch.cos as int)) as i64,
    }
}

/// One respawned coordinate: a 32-bit sample mapped affinely onto
/// `[-scale/2, scale/2)`.
pub open spec fn respawn_coord_spec(sample: int, scale: int) -> int {
    (scale * sample) / 0x1_0000_0000 - scale / 2
}

/// Each coordinate lies in the respawn interval `[-scale/2, scale/2)`.
pub open spec fn in_respawn_range(p: Vec3x, arena: ArenaBounds) -> bool {
    &&& -(arena.scale / 2) <= p.x < arena.scale / 2
    &&& -(arena.scale / 2) <= p.y < arena.scale / 2
    &&& -(arena.scale / 2) <= p.z < arena.scale / 2
}

/// Relies on `rand::random`: a draw from the thread-local generator.
/// Nothing is assumed of the value; callers must hold for every outcome.
pub assume_specification<T>[ rand::random::<T> ]() -> (r: T)
    where
        rand::distributions::Standard: rand::distributions::Distribution<T>,
;

/// Builds the (unnormalized) shot ray from the shooter's yaw and pitch.
pub fn shot_direction(yaw: &YawTrig, pitch: &YawTrig) -> (r: Vec3x)
    requires
        yaw.wf(),
        pitch.wf(),
    ensures
        r == shot_dir_spec(*yaw, *pitch),
        r.bounded(FX_ONE as int),
{
    proof {
        lemma_fxmul_bounds(yaw.sin as int, pitch.cos as int, FX_ONE as int, FX_ONE as int);
        lemma_fxmul_bounds(yaw.cos as int, pitch.cos as int, FX_ONE as int, FX_ONE as int);
        assert(tdiv(1_000_000_000_000, 1_000_000) == 1_000_000);
    }
    Vec3x {
        x: -(fx_mul(yaw.sin, pitch.cos)),
        y: pitch.sin,
        z: -(fx_mul(yaw.cos, pitch.cos)),
    }
}

/// The forward ray-sphere test, computed exactly in 128-bit integers.
fn sphere_test(origin: &Vec3x, dir: &Vec3x, cx: i64, cy: i64, cz: i64, radius: i64) -> (r: bool)
    requires
        origin.bounded(HIT_COORD_LIMIT as int),
        -4_000_000_000 <= cx <= 4_000_000_000,
        -4_000_000_000 <= cy <= 4_000_000_000,
        -4_000_000_000 <= cz <= 4_000_000_000,
        dir.bounded(DIR_LIMIT as int),
        0 <= radius <= MAX_ARENA_FX,
    ensures
        r == sphere_hit3(*origin, *dir, (cx as int, cy as int, cz as int), radius as int),
{
    let dx: i128 = (cx as i128) - (origin.x as i128);
    let dy: i128 = (cy as i128) - (origin.y as i128);
    let dz: i128 = (cz as i128) - (origin.z as i128);
    let vx: i128 = dir.x as i128;
    let vy: i128 = dir.y as i128;
    let vz: i128 = dir.z as i128;
    proof {
        assert(vx * dx <= 12_000_000_000_000_000 && vx * dx >= -12_000_000_000_000_000)
            by (nonlinear_arith)
            requires
                -6_000_000_000 <= dx <= 6_000_000_000,
                -2_000_000 <= vx <= 2_000_000,
        ;
        assert(vy * dy <= 12_000_000_000_000_000 && vy * dy >= -12_000_000_000_000_000)
            by (nonlinear_arith)
            requires
                -6_000_000_000 <= dy <= 6_000_000_000,
                -2_000_000 <= vy <= 2_000_000,
        ;
        assert(vz * dz <= 12_000_000_000_000_000 && vz * dz >= -12_000_000_000_000_000)
            by (nonlinear_arith)
            requires
                -6_000_000_000 <= dz <= 6_000_000_000,
                -2_000_000 <= vz <= 2_000_000,
        ;
    }
    let vd: i128 = vx * dx + vy * dy + vz * dz;
    if vd < 0 {
        return false;
    }
    proof {
        assert(0 <= dx * dx <= 36_000_000_000_000_000_000 && 0 <= dy * dy
            <= 36_000_000_000_000_000_000 && 0 <= dz * dz <= 36_000_000_000_000_000_000)
            by (nonlinear_arith)
            requires
                -6_000_000_000 <= dx <= 6_000_000_000,
                -6_000_000_000 <= dy <= 6_000_000_000,
                -6_000_000_000 <= dz <= 6_000_000_000,
        ;
        assert(0 <= vx * vx <= 4_000_000_000_000 && 0 <= vy * vy <= 4_000_000_000_000 && 0 <= vz
            * vz <= 4_000_000_000_000) by (nonlinear_arith)
            requires
                -2_000_000 <= vx <= 2_000_000,
                -2_000_000 <= vy <= 2_000_000,
                -2_000_000 <= vz <= 2_000_000,
        ;
        assert(0 <= (radius as i128) * (radius as i128) <= 1_000_000_000_000_000_000)
            by (nonlinear_arith)
            requires
                0 <= radius <= 1_000_000_000,
        ;
    }
    let dd: i128 = dx * dx + dy * dy + dz * dz;
    let rr: i128 = (radius as i128) * (radius as i128);
    let vv: i128 = vx * vx + vy * vy + vz * vz;
    proof {
        assert(vd * vd <= 2_000_000_000_000_000_000_000_000_000_000_000) by (nonlinear_arith)
            requires
                0 <= vd <= 36_000_000_000_000_000,
        ;
        assert((dd - rr) * vv <= 2_000_000_000_000_000_000_000_000_000_000_000 && (dd - rr) * vv
            >= -2_000_000_000_000_000_000_000_000_000_000_000) by (nonlinear_arith)
            requires
                -1_000_000_000_000_000_000 <= dd - rr <= 109_000_000_000_000_000_000,
                0 <= vv <= 12_000_000_000_000,
        ;
    }
    vd * vd >= (dd - rr) * vv
}

/// Hitscan geometry: a sphere center that lies exactly on the ray line
/// (zero cross product with the direction) and projects forward onto it
/// is always reported hit.
pub proof fn lemma_on_ray_hits(origin: Vec3x, dir: Vec3x, c: (int, int, int), radius: int)
    requires
        cross3(dir3(dir), offset3(origin, c)) == ((0int, 0int, 0int)),
        dot3(dir3(dir), offset3(origin, c)) >= 0,
        radius >= 0,
    ensures
        sphere_hit3(origin, dir, c, radius),
{
    let v = dir3(dir);
    let d = offset3(origin, c);
    lemma_lagrange_identity(v, d);
    assert(dot3(cross3(v, d), cross3(v, d)) == 0);
    let vd = dot3(v, d);
    let dd = dot3(d, d);
    let vv = dot3(v, v);
    assert(vd * vd == vv * dd);
    assert(vv >= 0 && dd >= 0) by (nonlinear_arith)
        requires
            vv == dir.x * dir.x + dir.y * dir.y + dir.z * dir.z,
            dd == d.0 * d.0 + d.1 * d.1 + d.2 * d.2,
    ;
    assert((dd - radius * radius) * vv == dd * vv - (radius * radius) * vv && radius * radius * vv
        >= 0 && vv * dd == dd * vv) by (nonlinear_arith)
        requires
            radius >= 0,
            vv >= 0,
    ;
}

/// Hitscan geometry: a sphere center whose perpendicular offset from the
/// ray line exceeds the radius (stated with both sides scaled by the
/// squared direction norm) is never reported hit.
pub proof fn lemma_perpendicular_miss(origin: Vec3x, dir: Vec3x, c: (int, int, int), radius: int)
    requires
        dot3(cross3(dir3(dir), offset3(origin, c)), cross3(dir3(dir), offset3(origin, c)))
            > radius * radius * dot3(dir3(dir), dir3(dir)),
    ensures
        !sphere_hit3(origin, dir, c, radius),
{
    let v = dir3(dir);
    let d = offset3(origin, c);
    lemma_lagrange_identity(v, d);
    let vd = dot3(v, d);
    let dd = dot3(d, d);
    let vv = dot3(v, v);
    let cc = dot3(cross3(v, d), cross3(v, d));
    assert(vd * vd == vv * dd - cc);
    assert((dd - radius * radius) * vv == dd * vv - (radius * radius) * vv && vv * dd == dd * vv)
        by (nonlinear_arith);
    assert(vd * vd < (dd - radius * radius) * vv);
}

/// Hitscan geometry: a target strictly behind the shooter, with both its
/// sphere centers projecting backward along the ray, is never reported
/// hit, regardless of proximity.
pub proof fn lemma_behind_miss(origin: Vec3x, dir: Vec3x, t: Actor)
    requires
        dot3(dir3(dir), offset3(origin, head_center(t))) < 0,
        dot3(dir3(dir), offset3(origin, feet_center(t))) < 0,
    ensures
        !target_hit(origin, dir, t),
{
}

/// Respawn bounds: every value of the 32-bit sample lands the coordinate
/// inside `[-scale/2, scale/2)`.
pub proof fn lemma_respawn_coord_in_range(sample: int, scale: int)
    requires
        0 <= sample < 0x1_0000_0000,
        0 < scale,
        scale % 2 == 0,
    ensures
        -(scale / 2) <= respawn_coord_spec(sample, scale) < scale / 2,
{
    assert(0 <= scale * sample && scale * sample < scale * 0x1_0000_0000) by (nonlinear_arith)
        requires
            0 <= sample < 0x1_0000_0000,
            0 < scale,
    ;
    vstd::arithmetic::div_mod::lemma_div_pos_is_pos(scale * sample, 0x1_0000_0000);
    vstd::arithmetic::div_mod::lemma_multiply_divide_lt(scale * sample, scale, 0x1_0000_0000);
}

/// One respawned coordinate from one random sample.
pub fn respawn_coord(sample: u32, scale: i64) -> (r: i64)
    requires
        0 < scale <= MAX_ARENA_FX,
        scale % 2 == 0,
    ensures
        r == respawn_coord_spec(sample as int, scale as int),
        -(scale / 2) <= r < scale / 2,
{
    proof {
        assert(0 <= (scale as int) * (sample as int) <= 4_294_967_295_000_000_000)
            by (nonlinear_arith)
            requires
                0 < scale <= 1_000_000_000,
                0 <= sample <= 0xffff_ffff,
        ;
        lemma_respawn_coord_in_range(sample as int, scale as int);
        vstd::arithmetic::div_mod::lemma_div_pos_is_pos((scale as int) * (sample as int), 0x1_0000_0000);
        vstd::arithmetic::div_mod::lemma_multiply_divide_lt(
            (scale as int) * (sample as int),
            scale as int,
            0x1_0000_0000,
        );
    }
    let prod: u64 = (scale as u64) * (sample as u64);
    let q: u64 = prod / 4_294_967_296u64;
    let half: i64 = ((scale as u64) / 2u64) as i64;
    (q as i64) - half
}

/// A full respawn position from three samples.
pub fn respawn_position(sx: u32, sy: u32, sz: u32, arena: &ArenaBounds) -> (r: Vec3x)
    requires
        arena.wf(),
    ensures
        r.x == respawn_coord_spec(sx as int, arena.scale as int),
        r.y == respawn_coord_spec(sy as int, arena.scale as int),
        r.z == respawn_coord_spec(sz as int, arena.scale as int),
        in_respawn_range(r, *arena),
{
    Vec3x {
        x: respawn_coord(sx, arena.scale),
        y: respawn_coord(sy, arena.scale),
        z: respawn_coord(sz, arena.scale),
    }
}

/// Resolves one shot over the roster: every actor but the shooter is
/// tested against the ray, and each hit target is moved to the respawn
/// position drawn from its three samples; players and velocities are
/// untouched.
pub fn handle_shooting(
    actors: &mut Vec<Actor>,
    shooter: usize,
    dir: &Vec3x,
    arena: &ArenaBounds,
    samples: &Vec<u32>,
)
    requires
        shooter < old(actors).len(),
        samples.len() == 3 * old(actors).len(),
        arena.wf(),
        dir.bounded(DIR_LIMIT as int),
        forall|k: int|
            0 <= k < old(actors).len() ==> {
                &&& (#[trigger] old(actors)[k]).position.bounded(HIT_COORD_LIMIT as int)
                &&& old(actors)[k].player.wf()
            },
    ensures
        final(actors).len() == old(actors).len(),
        final(actors)[shooter as int] == old(actors)[shooter as int],
        forall|k: int|
            0 <= k < old(actors).len() && k != shooter ==> {
                &&& (#[trigger] final(actors)[k]).player == old(actors)[k].player
                &&& final(actors)[k].velocity == old(actors)[k].velocity
                &&& (target_hit(old(actors)[shooter as int].position, *dir, old(actors)[k])
                    ==> final(actors)[k].position == (Vec3x {
                    x: respawn_coord_spec(samples[3 * k] as int, arena.scale as int) as i64,
                    y: respawn_coord_spec(samples[3 * k + 1] as int, arena.scale as int) as i64,
                    z: respawn_coord_spec(samples[3 * k + 2] as int, arena.scale as int) as i64,
                }))
                &&& (!target_hit(old(actors)[shooter as int].position, *dir, old(actors)[k])
                    ==> final(actors)[k].position == old(actors)[k].position)
            },
{
    let n = actors.len();
    let origin: Vec3x = actors[shooter].position;
    let mut out: Vec<Actor> = Vec::new();
    let mut k: usize = 0;
    while k < n
        invariant
            n == actors.len(),
            shooter < n,
            samples.len() == 3 * n,
            arena.wf(),
            dir.bounded(DIR_LIMIT as int),
            origin == actors[shooter as int].position,
            forall|j: int|
                0 <= j < n ==> {
                    &&& (#[trigger] actors[j]).position.bounded(HIT_COORD_LIMIT as int)
                    &&& actors[j].player.wf()
                },
            out.len() == k,
            k <= n,
            forall|j: int| 0 <= j < k && j == shooter ==> #[trigger] out[j] == actors[j],
            forall|j: int|
                0 <= j < k && j != shooter ==> {
                    &&& (#[trigger] out[j]).player == actors[j].player
                    &&& out[j].velocity == actors[j].velocity
                    &&& (target_hit(origin, *dir, actors[j]) ==> out[j].position == (Vec3x {
                        x: respawn_coord_spec(samples[3 * j] as int, arena.scale as int) as i64,
                        y: respawn_coord_spec(samples[3 * j + 1] as int, arena.scale as int) as i64,
                        z: respawn_coord_spec(samples[3 * j + 2] as int, arena.scale as int) as i64,
                    }))
                    &&& (!target_hit(origin, *dir, actors[j]) ==> out[j].position
                        == actors[j].position)
                },
        decreases n - k,
    {
        let t = actors[k];
        if k == shooter {
            out.push(t);
        } else {
            let head_hit = sphere_test(
                &origin,
                dir,
                t.position.x,
                t.position.y,
                t.position.z,
                t.player.radius,
            );
            let fy: i64 = t.position.y + (t.player.radius - t.player.height);
            let feet_hit = sphere_test(&origin, dir, t.position.x, fy, t.position.z, t.player.radius);
            if head_hit || feet_hit {
                let p = respawn_position(
                    samples[3 * k],
                    samples[3 * k + 1],
                    samples[3 * k + 2],
                    arena,
                );
                out.push(Actor { player: t.player, position: p, velocity: t.velocity });
            } else {
                out.push(t);
            }
        }
        k = k + 1;
    }
    *actors = out;
}

/// Resolves one shot with freshly drawn randomness: the convenience form
/// of `handle_shooting`. Whatever the generator returns, a hit target
/// lands inside the respawn region and a missed one does not move.
pub fn fire_shot(
    actors: &mut Vec<Actor>,
    shooter: usize,
    yaw: &YawTrig,
    pitch: &YawTrig,
    arena: &ArenaBounds,
)
    requires
        shooter < old(actors).len(),
        old(actors).len() <= crate::constants::MAX_PLAYER_COUNT,
        yaw.wf(),
        pitch.wf(),
        arena.wf(),
        forall|k: int|
            0 <= k < old(actors).len() ==> {
                &&& (#[trigger] old(actors)[k]).position.bounded(HIT_COORD_LIMIT as int)
                &&& old(actors)[k].player.wf()
            },
    ensures
        final(actors).len() == old(actors).len(),
        final(actors)[shooter as int] == old(actors)[shooter as int],
        forall|k: int|
            0 <= k < old(actors).len() && k != shooter ==> {
                &&& (#[trigger] final(actors)[k]).player == old(actors)[k].player
                &&& final(actors)[k].velocity == old(actors)[k].velocity
                &&& (target_hit(
                    old(actors)[shooter as int].position,
                    shot_dir_spec(*yaw, *pitch),
                    old(actors)[k],
                ) ==> in_respawn_range(final(actors)[k].position, *arena))
                &&& (!target_hit(
                    old(actors)[shooter as int].position,
                    shot_dir_spec(*yaw, *pitch),
                    old(actors)[k],
                ) ==> final(actors)[k].position == old(actors)[k].position)
            },
{
    let dir = shot_direction(yaw, pitch);
    let n = actors.len();
    let mut samples: Vec<u32> = Vec::new();
    while samples.len() < 3 * n
        invariant
            samples.len() <= 3 * n,
            n == actors.len(),
            n <= crate::constants::MAX_PLAYER_COUNT,
        decreases 3 * n - samples.len(),
    {
        let s: u32 = rand::random::<u32>();
        samples.push(s);
    }
    handle_shooting(actors, shooter, &dir, arena, &samples);
    proof {
        assert forall|k: int|
            0 <= k < old(actors).len() && k != shooter && target_hit(
                old(actors)[shooter as int].position,
                shot_dir_spec(*yaw, *pitch),
                old(actors)[k],
            ) implies in_respawn_range(final(actors)[k].position, *arena) by {
            lemma_respawn_coord_in_range(samples[3 * k] as int, arena.scale as int);
            lemma_respawn_coord_in_range(samples[3 * k + 1] as int, arena.scale as int);
            lemma_respawn_coord_in_range(samples[3 * k + 2] as int, arena.scale as int);
        }
    }
}

} // verus!
