//! Motion integration and bounds resolution for one tick.
//!
//! Velocity follows the closed-form solution of `dv/dt = -DRAG_RATE*v + a`
//! over the tick (`v' = v*drag + (1-drag)*a/DRAG_RATE` with
//! `drag = exp(-dt*DRAG_RATE)` supplied by the caller), so motion is
//! frame-rate independent; the vertical axis gets plain gravity. The
//! provisional position is then clamped into the arena, zeroing clamped
//! velocity components, except that a vertical clamp with jump intent
//! re-sets the vertical velocity to `JUMP_VELOCITY` (on the floor and,
//! deliberately kept, on the ceiling as well).

use vstd::prelude::*;

use crate::components::{
    body_fits, position_in_arena, position_in_range, velocity_in_range, Actor, ArenaBounds, Intent,
    YawTrig,
};
use crate::constants::{
    DRAG_RATE, DT_MAX, GRAVITY, INV_SQRT2, JUMP_VELOCITY, MOVE_MULT, POS_LIMIT, VEL_LIMIT,
};
use crate::fixed::{
    absi, clamped, fx_div_i, fx_mul, fxmul, lemma_fxmul_bounds, lemma_fxmul_shrinks,
    lemma_tdiv_bounds, tdiv, FX_ONE,
};
use vstd::arithmetic::div_mod::{lemma_div_is_ordered, lemma_div_multiples_vanish};

verus! {

/// Per-tick integration parameters: the tick length `dt` and the drag
/// factor `exp(-dt * DRAG_RATE)`, both fixed point and both computed by
/// the caller, which owns the floating-point exponential.
#[derive(Clone, Copy, Debug, PartialEq, Eq, Structural)]
pub struct StepParams {
    pub dt: i64,
    pub drag: i64,
}

impl StepParams {
    /// What holds of any faithful rendering of `exp(-dt * DRAG_RATE)`:
    /// the factor lies in the unit interval and `1 - drag <= DRAG_RATE * dt`.
    pub open spec fn wf(self) -> bool {
        &&& 0 <= self.dt <= DT_MAX
        &&& 0 <= self.drag <= FX_ONE
        &&& FX_ONE - self.drag <= DRAG_RATE * self.dt
    }
}

/// One actor's resolved input for one tick.
#[derive(Clone, Copy, Debug, PartialEq, Eq, Structural)]
pub struct TickInput {
    pub intent: Intent,
    pub trig: YawTrig,
}

/// A boolean key pair reduced to a signed unit axis.
pub open spec fn axis_value(pos: bool, neg: bool) -> int {
    (if pos {
        1int
    } else {
        0int
    }) - (if neg {
        1int
    } else {
        0int
    })
}

/// The planar intent as a fixed-point unit vector in actor-local space:
/// each axis in `{-1, 0, 1}` scaled by one, or by `1/sqrt(2)` when both
/// axes are active.
pub open spec fn intent_axes(i: Intent) -> (int, int) {
    let dx = axis_value(i.right, i.left);
    let dz = axis_value(i.forward, i.back);
    let u: int = if dx != 0 && dz != 0 {
        INV_SQRT2 as int
    } else {
        FX_ONE as int
    };
    (dx * u, dz * u)
}

/// World-space acceleration along x: the local intent rotated by yaw and
/// scaled by `MOVE_MULT`.
pub open spec fn acc_x_spec(t: YawTrig, i: Intent) -> int {
    MOVE_MULT * (fxmul(t.cos as int, intent_axes(i).0) + fxmul(t.sin as int, intent_axes(i).1))
}

/// World-space acceleration along z.
pub open spec fn acc_z_spec(t: YawTrig, i: Intent) -> int {
    MOVE_MULT * (fxmul(-(t.sin as int), intent_axes(i).0) + fxmul(t.cos as int, intent_axes(i).1))
}

/// Horizontal velocity after one tick: the old value decayed by `drag`
/// plus the acceleration's steady-state contribution scaled by `1 - drag`.
pub open spec fn vel_h_next(v: int, drag: int, acc: int) -> int {
    fxmul(v, drag) + tdiv(fxmul(FX_ONE - drag, acc), DRAG_RATE as int)
}

/// Vertical velocity after one tick: plain gravity, no drag.
pub open spec fn vel_y_next(v: int, dt: int) -> int {
    v - GRAVITY * dt
}

/// Horizontal position advance over one tick, the closed-form companion
/// of `vel_h_next`, evaluated with the already-updated velocity.
pub open spec fn pos_h_delta(dt: int, drag: int, acc: int, v_new: int) -> int {
    let diff = FX_ONE - drag;
    tdiv(fxmul(dt - tdiv(diff, DRAG_RATE as int), acc), DRAG_RATE as int) + tdiv(
        fxmul(diff, v_new),
        DRAG_RATE as int,
    )
}

/// Vertical position advance over one tick: plain kinematics with the
/// already-updated velocity.
pub open spec fn pos_y_delta(dt: int, v_new: int) -> int {
    -tdiv(GRAVITY * fxmul(dt, dt), 2) + fxmul(v_new, dt)
}

/// The actor's velocity components after integration, before bounds.
pub open spec fn mid_vel_x(pre: Actor, trig: YawTrig, i: Intent, s: StepParams) -> int {
    vel_h_next(pre.velocity.0.x as int, s.drag as int, acc_x_spec(trig, i))
}

pub open spec fn mid_vel_y(pre: Actor, s: StepParams) -> int {
    vel_y_next(pre.velocity.0.y as int, s.dt as int)
}

pub open spec fn mid_vel_z(pre: Actor, trig: YawTrig, i: Intent, s: StepParams) -> int {
    vel_h_next(pre.velocity.0.z as int, s.drag as int, acc_z_spec(trig, i))
}

/// The actor's provisional position after integration, before bounds.
pub open spec fn mid_pos_x(pre: Actor, trig: YawTrig, i: Intent, s: StepParams) -> int {
    pre.position.x + pos_h_delta(s.dt as int, s.drag as int, acc_x_spec(trig, i), mid_vel_x(pre, trig, i, s))
}

pub open spec fn mid_pos_y(pre: Actor, s: StepParams) -> int {
    pre.position.y + pos_y_delta(s.dt as int, mid_vel_y(pre, s))
}

pub open spec fn mid_pos_z(pre: Actor, trig: YawTrig, i: Intent, s: StepParams) -> int {
    pre.position.z + pos_h_delta(s.dt as int, s.drag as int, acc_z_spec(trig, i), mid_vel_z(pre, trig, i, s))
}

/// Whether this tick's provisional x overshoots either arena wall.
pub open spec fn x_clamps(pre: Actor, trig: YawTrig, i: Intent, s: StepParams, arena: ArenaBounds) -> bool {
    let hi = arena.scale - pre.player.radius;
    mid_pos_x(pre, trig, i, s) < -hi || mid_pos_x(pre, trig, i, s) > hi
}

/// Whether this tick's provisional y overshoots the floor or the ceiling.
pub open spec fn y_clamps(pre: Actor, trig: YawTrig, i: Intent, s: StepParams, arena: ArenaBounds) -> bool {
    let py = mid_pos_y(pre, s);
    py < pre.player.height - arena.scale || py > arena.scale - pre.player.radius
}

/// Whether this tick's provisional z overshoots either arena wall.
pub open spec fn z_clamps(pre: Actor, trig: YawTrig, i: Intent, s: StepParams, arena: ArenaBounds) -> bool {
    let hi = arena.scale - pre.player.radius;
    mid_pos_z(pre, trig, i, s) < -hi || mid_pos_z(pre, trig, i, s) > hi
}

/// The whole physics tick of one actor: integration followed by bounds
/// resolution, each component pinned exactly.
pub open spec fn physics_step(
    pre: Actor,
    post: Actor,
    trig: YawTrig,
    i: Intent,
    s: StepParams,
    arena: ArenaBounds,
) -> bool {
    let hi = arena.scale - pre.player.radius;
    let lo_y = pre.player.height - arena.scale;
    &&& post.player == pre.player
    &&& post.position.x == clamped(mid_pos_x(pre, trig, i, s), -hi, hi)
    &&& post.position.y == clamped(mid_pos_y(pre, s), lo_y as int, hi as int)
    &&& post.position.z == clamped(mid_pos_z(pre, trig, i, s), -hi, hi)
    &&& post.velocity.0.x == if x_clamps(pre, trig, i, s, arena) {
        0int
    } else {
        mid_vel_x(pre, trig, i, s)
    }
    &&& post.velocity.0.y == if y_clamps(pre, trig, i, s, arena) {
        if i.jump {
            JUMP_VELOCITY as int
        } else {
            0int
        }
    } else {
        mid_vel_y(pre, s)
    }
    &&& post.velocity.0.z == if z_clamps(pre, trig, i, s, arena) {
        0int
    } else {
        mid_vel_z(pre, trig, i, s)
    }
}

/// The tick length never reaches the integrator below a millionth of a
/// second: degenerate frames are stretched to that epsilon.
pub fn clamp_dt(dt: i64) -> (r: i64)
    ensures
        r == if dt < 1 {
            1int
        } else {
            dt as int
        },
{
    if dt < 1 {
        1
    } else {
        dt
    }
}

/// Rotates the normalized planar intent into world space and scales it
/// by `MOVE_MULT`, giving the tick's horizontal acceleration.
fn accel(trig: &YawTrig, intent: &Intent) -> (r: (i64, i64))
    requires
        trig.wf(),
    ensures
        r.0 == acc_x_spec(*trig, *intent),
        r.1 == acc_z_spec(*trig, *intent),
        -120_000_000 <= r.0 <= 120_000_000,
        -120_000_000 <= r.1 <= 120_000_000,
{
    let dxi: i64 = (if intent.right {
        1i64
    } else {
        0i64
    }) - (if intent.left {
        1i64
    } else {
        0i64
    });
    let dzi: i64 = (if intent.forward {
        1i64
    } else {
        0i64
    }) - (if intent.back {
        1i64
    } else {
        0i64
    });
    let u: i64 = if dxi != 0 && dzi != 0 {
        INV_SQRT2
    } else {
        FX_ONE
    };
    let ux: i64 = dxi * u;
    let uz: i64 = dzi * u;
    assert(ux == intent_axes(*intent).0 && uz == intent_axes(*intent).1);

    let nsin: i64 = -trig.sin;
    proof {
        lemma_fxmul_bounds(trig.cos as int, ux as int, FX_ONE as int, FX_ONE as int);
        lemma_fxmul_bounds(trig.sin as int, uz as int, FX_ONE as int, FX_ONE as int);
        lemma_fxmul_bounds(nsin as int, ux as int, FX_ONE as int, FX_ONE as int);
        lemma_fxmul_bounds(trig.cos as int, uz as int, FX_ONE as int, FX_ONE as int);
        assert(tdiv(1_000_000_000_000, 1_000_000) == 1_000_000);
    }
    let cx = fx_mul(trig.cos, ux);
    let sx = fx_mul(trig.sin, uz);
    let cz = fx_mul(nsin, ux);
    let sz = fx_mul(trig.cos, uz);
    (MOVE_MULT * (cx + sx), MOVE_MULT * (cz + sz))
}

/// One drag step of a horizontal velocity component.
fn vel_h_step(v: i64, drag: i64, acc: i64) -> (r: i64)
    requires
        -VEL_LIMIT <= v <= VEL_LIMIT,
        0 <= drag <= FX_ONE,
        -120_000_000 <= acc <= 120_000_000,
    ensures
        r == vel_h_next(v as int, drag as int, acc as int),
        -1_000_020_000_000 <= r <= 1_000_020_000_000,
{
    let diff: i64 = FX_ONE - drag;
    proof {
        lemma_fxmul_shrinks(v as int, drag as int);
        lemma_fxmul_bounds(diff as int, acc as int, FX_ONE as int, 120_000_000);
        assert(tdiv(120_000_000_000_000, 1_000_000) == 120_000_000);
        lemma_tdiv_bounds(fxmul(diff as int, acc as int), 120_000_000, DRAG_RATE as int);
    }
    fx_mul(v, drag) + fx_div_i(fx_mul(diff, acc), DRAG_RATE)
}

/// One closed-form position step of a horizontal axis, from the
/// already-updated velocity.
fn pos_h_step(p: i64, dt: i64, drag: i64, acc: i64, v_new: i64) -> (r: i64)
    requires
        -POS_LIMIT <= p <= POS_LIMIT,
        0 <= dt <= DT_MAX,
        0 <= drag <= FX_ONE,
        -120_000_000 <= acc <= 120_000_000,
        -1_000_020_000_000 <= v_new <= 1_000_020_000_000,
    ensures
        r == p + pos_h_delta(dt as int, drag as int, acc as int, v_new as int),
{
    let diff: i64 = FX_ONE - drag;
    proof {
        lemma_tdiv_bounds(diff as int, FX_ONE as int, DRAG_RATE as int);
    }
    let t1: i64 = fx_div_i(diff, DRAG_RATE);
    let adt: i64 = dt - t1;
    proof {
        lemma_fxmul_bounds(adt as int, acc as int, DT_MAX as int, 120_000_000);
        assert(tdiv(1_200_000_000_000_000, 1_000_000) == 1_200_000_000);
        lemma_tdiv_bounds(fxmul(adt as int, acc as int), 1_200_000_000, DRAG_RATE as int);
        lemma_fxmul_bounds(diff as int, v_new as int, FX_ONE as int, 1_000_020_000_000);
        assert(tdiv(1_000_020_000_000_000_000, 1_000_000) == 1_000_020_000_000);
        lemma_tdiv_bounds(fxmul(diff as int, v_new as int), 1_000_020_000_000, DRAG_RATE as int);
    }
    p + (fx_div_i(fx_mul(adt, acc), DRAG_RATE) + fx_div_i(fx_mul(diff, v_new), DRAG_RATE))
}

/// One kinematic position step of the vertical axis, from the
/// already-updated velocity.
fn pos_y_step(p: i64, dt: i64, v_new: i64) -> (r: i64)
    requires
        -POS_LIMIT <= p <= POS_LIMIT,
        0 <= dt <= DT_MAX,
        -1_000_250_000_000 <= v_new <= 1_000_250_000_000,
    ensures
        r == p + pos_y_delta(dt as int, v_new as int),
{
    proof {
        lemma_fxmul_bounds(dt as int, dt as int, DT_MAX as int, DT_MAX as int);
        assert(tdiv(100_000_000_000_000, 1_000_000) == 100_000_000);
        lemma_fxmul_bounds(v_new as int, dt as int, 1_000_250_000_000, DT_MAX as int);
        assert(tdiv(10_002_500_000_000_000_000, 1_000_000) == 10_002_500_000_000);
    }
    let g: i64 = GRAVITY * fx_mul(dt, dt);
    proof {
        lemma_tdiv_bounds(g as int, 2_500_000_000, 2);
    }
    p + (-(fx_div_i(g, 2)) + fx_mul(v_new, dt))
}

/// Integrates one actor's velocity and provisional position over one tick.
pub fn integrate_motion(actor: &mut Actor, trig: &YawTrig, intent: &Intent, s: &StepParams)
    requires
        trig.wf(),
        s.wf(),
        velocity_in_range(old(actor).velocity),
        position_in_range(old(actor).position),
    ensures
        final(actor).player == old(actor).player,
        final(actor).velocity.0.x == mid_vel_x(*old(actor), *trig, *intent, *s),
        final(actor).velocity.0.y == mid_vel_y(*old(actor), *s),
        final(actor).velocity.0.z == mid_vel_z(*old(actor), *trig, *intent, *s),
        final(actor).position.x == mid_pos_x(*old(actor), *trig, *intent, *s),
        final(actor).position.y == mid_pos_y(*old(actor), *s),
        final(actor).position.z == mid_pos_z(*old(actor), *trig, *intent, *s),
{
    let (acc_x, acc_z) = accel(trig, intent);
    let vx1 = vel_h_step(actor.velocity.0.x, s.drag, acc_x);
    let vy1 = actor.velocity.0.y - GRAVITY * s.dt;
    let vz1 = vel_h_step(actor.velocity.0.z, s.drag, acc_z);
    let px = pos_h_step(actor.position.x, s.dt, s.drag, acc_x, vx1);
    let py = pos_y_step(actor.position.y, s.dt, vy1);
    let pz = pos_h_step(actor.position.z, s.dt, s.drag, acc_z, vz1);
    actor.velocity.0.x = vx1;
    actor.velocity.0.y = vy1;
    actor.velocity.0.z = vz1;
    actor.position.x = px;
    actor.position.y = py;
    actor.position.z = pz;
}

/// Clamps a provisional position into the arena and re-sets velocity on
/// contact; a vertical clamp with jump intent grants `JUMP_VELOCITY`.
pub fn resolve_bounds(actor: &mut Actor, arena: &ArenaBounds, jump: bool)
    requires
        body_fits(old(actor).player, *arena),
    ensures
        final(actor).player == old(actor).player,
        final(actor).position.x == clamped(
            old(actor).position.x as int,
            -(arena.scale - old(actor).player.radius),
            arena.scale - old(actor).player.radius,
        ),
        final(actor).position.y == clamped(
            old(actor).position.y as int,
            old(actor).player.height - arena.scale,
            arena.scale - old(actor).player.radius,
        ),
        final(actor).position.z == clamped(
            old(actor).position.z as int,
            -(arena.scale - old(actor).player.radius),
            arena.scale - old(actor).player.radius,
        ),
        final(actor).velocity.0.x == if old(actor).position.x < -(arena.scale
            - old(actor).player.radius) || old(actor).position.x > arena.scale
            - old(actor).player.radius {
            0int
        } else {
            old(actor).velocity.0.x as int
        },
        final(actor).velocity.0.y == if old(actor).position.y < old(actor).player.height
            - arena.scale || old(actor).position.y > arena.scale - old(actor).player.radius {
            if jump {
                JUMP_VELOCITY as int
            } else {
                0int
            }
        } else {
            old(actor).velocity.0.y as int
        },
        final(actor).velocity.0.z == if old(actor).position.z < -(arena.scale
            - old(actor).player.radius) || old(actor).position.z > arena.scale
            - old(actor).player.radius {
            0int
        } else {
            old(actor).velocity.0.z as int
        },
        position_in_arena(final(actor).position, final(actor).player, *arena),
{
    let bound: i64 = arena.scale - actor.player.radius;
    let y_lo: i64 = actor.player.height - arena.scale;
    let mut hit_x = false;
    let mut hit_y = false;
    let mut hit_z = false;
    if actor.position.x < -bound {
        actor.position.x = -bound;
        hit_x = true;
    }
    if actor.position.x > bound {
        actor.position.x = bound;
        hit_x = true;
    }
    if actor.position.y < y_lo {
        actor.position.y = y_lo;
        hit_y = true;
    }
    if actor.position.y > bound {
        actor.position.y = bound;
        hit_y = true;
    }
    if actor.position.z < -bound {
        actor.position.z = -bound;
        hit_z = true;
    }
    if actor.position.z > bound {
        actor.position.z = bound;
        hit_z = true;
    }
    if hit_x {
        actor.velocity.0.x = 0;
    }
    if hit_z {
        actor.velocity.0.z = 0;
    }
    if hit_y {
        actor.velocity.0.y = if jump {
            JUMP_VELOCITY
        } else {
            0
        };
    }
}

/// One actor's full physics tick: integrate, then resolve bounds.
pub fn update_actor_physics(
    actor: &mut Actor,
    trig: &YawTrig,
    intent: &Intent,
    s: &StepParams,
    arena: &ArenaBounds,
)
    requires
        trig.wf(),
        s.wf(),
        velocity_in_range(old(actor).velocity),
        position_in_range(old(actor).position),
        body_fits(old(actor).player, *arena),
    ensures
        physics_step(*old(actor), *final(actor), *trig, *intent, *s, *arena),
        position_in_arena(final(actor).position, final(actor).player, *arena),
{
    integrate_motion(actor, trig, intent, s);
    resolve_bounds(actor, arena, intent.jump);
}

/// The physics system over the whole roster: every actor advances by one
/// tick against its own input; actors do not interact.
pub fn update_physics(
    actors: &mut Vec<Actor>,
    inputs: &Vec<TickInput>,
    s: &StepParams,
    arena: &ArenaBounds,
)
    requires
        inputs.len() == old(actors).len(),
        s.wf(),
        forall|k: int|
            0 <= k < old(actors).len() ==> (#[trigger] inputs[k]).trig.wf(),
        forall|k: int|
            0 <= k < old(actors).len() ==> {
                &&& velocity_in_range((#[trigger] old(actors)[k]).velocity)
                &&& position_in_range(old(actors)[k].position)
                &&& body_fits(old(actors)[k].player, *arena)
            },
    ensures
        final(actors).len() == old(actors).len(),
        forall|k: int|
            0 <= k < old(actors).len() ==> physics_step(
                old(actors)[k],
                #[trigger] final(actors)[k],
                inputs[k].trig,
                inputs[k].intent,
                *s,
                *arena,
            ),
        forall|k: int|
            0 <= k < old(actors).len() ==> position_in_arena(
                (#[trigger] final(actors)[k]).position,
                old(actors)[k].player,
                *arena,
            ),
{
    let n = actors.len();
    let mut out: Vec<Actor> = Vec::new();
    let mut k: usize = 0;
    while k < n
        invariant
            n == actors.len(),
            inputs.len() == n,
            out.len() == k,
            k <= n,
            forall|j: int|
                0 <= j < n ==> (#[trigger] inputs[j]).trig.wf(),
            forall|j: int|
                0 <= j < n ==> {
                    &&& velocity_in_range((#[trigger] actors[j]).velocity)
                    &&& position_in_range(actors[j].position)
                    &&& body_fits(actors[j].player, *arena)
                },
            s.wf(),
            forall|j: int|
                0 <= j < k ==> physics_step(
                    actors[j],
                    #[trigger] out[j],
                    inputs[j].trig,
                    inputs[j].intent,
                    *s,
                    *arena,
                ),
            forall|j: int|
                0 <= j < k ==> position_in_arena(
                    (#[trigger] out[j]).position,
                    actors[j].player,
                    *arena,
                ),
        decreases n - k,
    {
        let mut a = actors[k];
        update_actor_physics(&mut a, &inputs[k].trig, &inputs[k].intent, s, arena);
        out.push(a);
        k = k + 1;
    }
    *actors = out;
}

/// Drag-only decay: with no movement intent the horizontal velocity is
/// exactly the old value scaled by the drag factor, and the vertical one
/// loses exactly `GRAVITY * dt`.
pub proof fn lemma_drag_only_decay(v: int, drag: int, dt: int, trig: YawTrig, i: Intent)
    requires
        !i.forward && !i.back && !i.left && !i.right,
    ensures
        vel_h_next(v, drag, acc_x_spec(trig, i)) == fxmul(v, drag),
        vel_h_next(v, drag, acc_z_spec(trig, i)) == fxmul(v, drag),
        vel_y_next(v, dt) == v - GRAVITY * dt,
{
    assert(intent_axes(i).0 == 0 && intent_axes(i).1 == 0);
    assert(acc_x_spec(trig, i) == 0 && acc_z_spec(trig, i) == 0);
    assert(fxmul(FX_ONE - drag, 0) == 0);
}

/// Continuity at the degenerate step: with a zero-length tick (and so a
/// drag factor of one) velocity and position are exactly unchanged.
pub proof fn lemma_zero_step_is_identity(v: int, acc: int)
    ensures
        vel_h_next(v, FX_ONE as int, acc) == v,
        vel_y_next(v, 0) == v,
        pos_h_delta(0, FX_ONE as int, acc, v) == 0,
        pos_y_delta(0, v) == 0,
{
    assert(fxmul(v, FX_ONE as int) == v) by {
        vstd::arithmetic::div_mod::lemma_div_multiples_vanish(v, FX_ONE as int);
        assert(v * (FX_ONE as int) == (FX_ONE as int) * v) by (nonlinear_arith);
        if v < 0 {
            vstd::arithmetic::div_mod::lemma_div_multiples_vanish(-v, FX_ONE as int);
            assert((-v) * (FX_ONE as int) == (FX_ONE as int) * (-v)) by (nonlinear_arith);
        }
    }
    assert(fxmul(0, acc) == 0);
    assert(fxmul(0, v) == 0);
    assert(fxmul(v, 0) == 0);
    assert(fxmul(0, 0) == 0);
}

/// Continuity: every change one tick makes is bounded linearly in the
/// tick length (up to one fixed-point unit of truncation per term), so
/// the velocity and position deltas vanish as `dt` does. `v` is any
/// incoming velocity component, `acc` any acceleration the intent
/// rotation can produce, and `w` the updated velocity component that the
/// position step integrates.
pub proof fn lemma_deltas_vanish_with_dt(v: int, acc: int, w: int, s: StepParams)
    requires
        s.wf(),
        -120_000_000 <= acc <= 120_000_000,
    ensures
        absi(vel_h_next(v, s.drag as int, acc) - v) <= tdiv(
            absi(v) * (DRAG_RATE * s.dt),
            FX_ONE as int,
        ) + 120 * s.dt + 1,
        vel_y_next(v, s.dt as int) - v == -(GRAVITY * s.dt),
        absi(pos_h_delta(s.dt as int, s.drag as int, acc, w)) <= 20 * s.dt + tdiv(
            absi(w) * s.dt,
            FX_ONE as int,
        ) + 1,
        absi(pos_y_delta(s.dt as int, w)) <= 13 * fxmul(s.dt as int, s.dt as int) + tdiv(
            absi(w) * s.dt,
            FX_ONE as int,
        ),
{
    let fx = FX_ONE as int;
    let dt = s.dt as int;
    let drag = s.drag as int;
    let diff = fx - drag;

    // The drag loss: at most the scaled 6*dt fraction of the speed, plus
    // one truncation unit, by the gap lemma applied to the magnitude.
    if v >= 0 {
        crate::fixed::lemma_fxmul_drag_gap(v, drag);
        assert(0 <= v * diff <= v * (6 * dt) && v * (6 * dt) == absi(v) * (DRAG_RATE * dt))
            by (nonlinear_arith)
            requires
                0 <= v,
                0 <= diff <= 6 * dt,
                DRAG_RATE == 6,
        ;
        lemma_div_is_ordered(v * diff, v * (6 * dt), fx);
        vstd::arithmetic::div_mod::lemma_div_pos_is_pos(v * (6 * dt), fx);
    } else {
        let u = -v;
        crate::fixed::lemma_fxmul_drag_gap(u, drag);
        assert(v * drag == -(u * drag) && 0 <= u * drag && v * diff == -(u * diff) && 0 <= u * diff
            <= u * (6 * dt) && u * (6 * dt) == absi(v) * (DRAG_RATE * dt)) by (nonlinear_arith)
            requires
                u == -v,
                v < 0,
                0 <= drag,
                0 <= diff <= 6 * dt,
                DRAG_RATE == 6,
        ;
        assert(fxmul(v, drag) == -fxmul(u, drag));
        lemma_div_is_ordered(u * diff, u * (6 * dt), fx);
        vstd::arithmetic::div_mod::lemma_div_pos_is_pos(u * (6 * dt), fx);
    }

    // The acceleration gain: at most 120 * dt.
    lemma_fxmul_bounds(diff, acc, 6 * dt, 120_000_000);
    assert((6 * dt) * 120_000_000 == 1_000_000 * (720 * dt));
    lemma_div_multiples_vanish(720 * dt, fx);
    lemma_tdiv_bounds(fxmul(diff, acc), 720 * dt, DRAG_RATE as int);
    assert(720 * dt == 6 * (120 * dt));
    lemma_div_multiples_vanish(120 * dt, 6);

    // The horizontal position advance: the acceleration part is at most
    // 20 * dt, since |dt - diff/6| <= dt ...
    let t1 = tdiv(diff, DRAG_RATE as int);
    lemma_div_is_ordered(diff, 6 * dt, 6);
    lemma_div_multiples_vanish(dt, 6);
    vstd::arithmetic::div_mod::lemma_div_pos_is_pos(diff, 6);
    let adt = dt - t1;
    lemma_fxmul_bounds(adt, acc, dt, 120_000_000);
    assert(dt * 120_000_000 == 1_000_000 * (120 * dt));
    lemma_tdiv_bounds(fxmul(adt, acc), 120 * dt, DRAG_RATE as int);
    assert(120 * dt == 6 * (20 * dt));
    lemma_div_multiples_vanish(20 * dt, 6);

    // ... and the velocity part at most the scaled dt fraction of it,
    // plus one truncation unit.
    lemma_fxmul_bounds(diff, w, 6 * dt, absi(w));
    let x6 = (6 * dt) * absi(w);
    assert(x6 == 6 * (absi(w) * dt) && 0 <= x6 && 0 <= absi(w)) by (nonlinear_arith)
        requires
            x6 == (6 * dt) * absi(w),
            0 <= dt,
            0 <= absi(w),
    ;
    lemma_tdiv_bounds(fxmul(diff, w), tdiv(x6, fx), 6);
    vstd::arithmetic::div_mod::lemma_div_pos_is_pos(x6, fx);
    vstd::arithmetic::div_mod::lemma_div_denominator(x6, fx, 6);
    vstd::arithmetic::div_mod::lemma_div_multiples_vanish_quotient(6, absi(w) * dt, fx);
    vstd::arithmetic::div_mod::lemma_div_pos_is_pos(absi(w) * dt, fx);

    // The vertical position advance: a half-gravity dt-squared term and
    // the scaled dt fraction of the integrated velocity.
    let m = fxmul(dt, dt);
    assert(0 <= dt * dt) by (nonlinear_arith);
    vstd::arithmetic::div_mod::lemma_div_pos_is_pos(dt * dt, fx);
    assert(GRAVITY * m <= 26 * m && 26 * m == 2 * (13 * m));
    lemma_div_is_ordered(GRAVITY * m, 2 * (13 * m), 2);
    lemma_div_multiples_vanish(13 * m, 2);
    vstd::arithmetic::div_mod::lemma_div_pos_is_pos(GRAVITY * m, 2);
    lemma_fxmul_bounds(w, dt, absi(w), dt);
}

/// Jump gating: provided the incoming vertical velocity does not already
/// happen to equal `JUMP_VELOCITY` after gravity, the tick leaves the
/// vertical velocity at exactly `JUMP_VELOCITY` if and only if the tick
/// clamped vertically with jump intent asserted; on a vertical clamp
/// without jump it is zero, and with no clamp it is untouched.
pub proof fn lemma_jump_gating(
    pre: Actor,
    post: Actor,
    trig: YawTrig,
    i: Intent,
    s: StepParams,
    arena: ArenaBounds,
)
    requires
        physics_step(pre, post, trig, i, s, arena),
        mid_vel_y(pre, s) != JUMP_VELOCITY,
    ensures
        post.velocity.0.y == JUMP_VELOCITY <==> (y_clamps(pre, trig, i, s, arena) && i.jump),
        y_clamps(pre, trig, i, s, arena) && !i.jump ==> post.velocity.0.y == 0,
        !y_clamps(pre, trig, i, s, arena) ==> post.velocity.0.y == mid_vel_y(pre, s),
{
}

} // verus!
