use arena_sim::components::{Actor, ArenaBounds, Intent, Player, Rgb, Velocity, YawTrig};
use arena_sim::systems::update_physics::{
    clamp_dt, resolve_bounds, update_actor_physics, update_physics, StepParams, TickInput,
};
use arena_sim::vec3::Vec3x;

const FX: f64 = 1_000_000.0;

fn fx(v: f64) -> i64 {
    (v * FX).round() as i64
}

fn test_player(id: usize) -> Player {
    Player { id, yaw: 0, pitch: 0, radius: fx(0.5), height: fx(1.5), color: Rgb { r: 0, g: 0, b: 0 } }
}

fn at_rest(id: usize, pos: Vec3x) -> Actor {
    Actor { player: test_player(id), position: pos, velocity: Velocity(Vec3x { x: 0, y: 0, z: 0 }) }
}

fn arena16() -> ArenaBounds {
    ArenaBounds { scale: fx(16.0) }
}

fn step(dt: f64) -> StepParams {
    StepParams { dt: fx(dt), drag: fx((-dt * 6.0).exp()) }
}

fn trig_of(yaw: f64) -> YawTrig {
    YawTrig { sin: fx(yaw.sin()), cos: fx(yaw.cos()) }
}

fn forward_intent() -> Intent {
    Intent { forward: true, back: false, left: false, right: false, jump: false, fire: false }
}

fn idle_intent() -> Intent {
    Intent { forward: false, back: false, left: false, right: false, jump: false, fire: false }
}

#[test]
fn forward_tick_scenario() {
    // Arena half-extent 16, dt = 0.1, actor at rest at the origin with yaw 0,
    // forward intent only: drag = exp(-0.6) ~ 0.5488, the accelerated axis
    // gains velocity ~ 4.512 and advances ~ 0.587; gravity takes 2.5 off the
    // vertical velocity.
    let mut a = at_rest(0, Vec3x { x: 0, y: 0, z: 0 });
    let s = step(0.1);
    update_actor_physics(&mut a, &trig_of(0.0), &forward_intent(), &s, &arena16());

    // Exact fixed-point values, derived from the integer formulas.
    assert_eq!(a.velocity.0.z, 4_511_880);
    assert_eq!(a.velocity.0.y, -2_500_000);
    assert_eq!(a.velocity.0.x, 0);
    assert_eq!(a.position.x, 0);

    // And within rounding of the real-valued model.
    let drag = (-0.6f64).exp();
    let diff = 1.0 - drag;
    let v_expect = diff * 60.0 / 6.0;
    let d_expect = (0.1 - diff / 6.0) * 60.0 / 6.0 + diff * v_expect / 6.0;
    assert!((a.velocity.0.z as f64 / FX - v_expect).abs() < 0.001);
    assert!((a.position.z as f64 / FX - d_expect).abs() < 0.001);
    assert!((v_expect - 4.512).abs() < 0.001);
    assert!((d_expect - 0.587).abs() < 0.001);
}

#[test]
fn drag_only_decay() {
    // With no movement intent, v_h' = v_h * exp(-dt * 6) and
    // v_y' = v_y - 25 * dt, exactly in the fixed-point model.
    let mut a = at_rest(0, Vec3x { x: 0, y: fx(5.0), z: 0 });
    a.velocity = Velocity(Vec3x { x: fx(3.0), y: fx(1.0), z: fx(-2.0) });
    let s = step(0.05);
    update_actor_physics(&mut a, &trig_of(1.234), &idle_intent(), &s, &arena16());

    let drag = s.drag;
    assert_eq!(a.velocity.0.x, fx(3.0) * drag / 1_000_000);
    assert_eq!(a.velocity.0.z, -((2_000_000 * drag) / 1_000_000));
    assert_eq!(a.velocity.0.y, fx(1.0) - 25 * fx(0.05));

    let expect_x = 3.0 * (-0.3f64).exp();
    assert!((a.velocity.0.x as f64 / FX - expect_x).abs() < 0.001);
}

#[test]
fn zero_length_tick_changes_nothing() {
    // Continuity: at dt = 0 (drag = 1) the whole state is unchanged.
    let mut a = at_rest(0, Vec3x { x: fx(2.0), y: fx(1.0), z: fx(-3.0) });
    a.velocity = Velocity(Vec3x { x: fx(1.5), y: fx(-0.5), z: fx(0.25) });
    let before = a;
    let s = StepParams { dt: 0, drag: 1_000_000 };
    update_actor_physics(&mut a, &trig_of(0.7), &forward_intent(), &s, &arena16());
    assert_eq!(a, before);
}

#[test]
fn clamp_dt_floor() {
    assert_eq!(clamp_dt(-5), 1);
    assert_eq!(clamp_dt(0), 1);
    assert_eq!(clamp_dt(1), 1);
    assert_eq!(clamp_dt(100_000), 100_000);
}

#[test]
fn containment_large_overshoot() {
    // Arbitrarily large overshoot on every axis comes back inside the
    // invariant region, and clamped axes zero their velocity.
    let mut a = at_rest(0, Vec3x { x: 1_000_000_000_000, y: -1_000_000_000_000, z: 50_000_000 });
    a.velocity = Velocity(Vec3x { x: fx(9.0), y: fx(-30.0), z: fx(4.0) });
    resolve_bounds(&mut a, &arena16(), false);
    let bound = fx(16.0) - fx(0.5);
    assert_eq!(a.position.x, bound);
    assert_eq!(a.position.y, fx(1.5) - fx(16.0));
    assert_eq!(a.position.z, bound);
    assert_eq!(a.velocity.0.x, 0);
    assert_eq!(a.velocity.0.y, 0);
    assert_eq!(a.velocity.0.z, 0);

    let mut b = at_rest(1, Vec3x { x: -999_999_999_999, y: 999_999_999_999, z: 0 });
    resolve_bounds(&mut b, &arena16(), false);
    assert_eq!(b.position.x, -bound);
    assert_eq!(b.position.y, bound);
    assert_eq!(b.position.z, 0);
}

#[test]
fn jump_gating_floor() {
    // A floor clamp with jump intent sets the vertical velocity to exactly
    // JUMP_VELOCITY = 8.4375.
    let mut a = at_rest(0, Vec3x { x: 0, y: -1_000_000_000, z: 0 });
    a.velocity = Velocity(Vec3x { x: 0, y: fx(-12.0), z: 0 });
    resolve_bounds(&mut a, &arena16(), true);
    assert_eq!(a.velocity.0.y, 8_437_500);
}

#[test]
fn jump_gating_requires_clamp() {
    // No vertical clamp: jump intent alone changes nothing vertically.
    let mut a = at_rest(0, Vec3x { x: 0, y: fx(3.0), z: 0 });
    a.velocity = Velocity(Vec3x { x: 0, y: fx(-1.0), z: 0 });
    resolve_bounds(&mut a, &arena16(), true);
    assert_eq!(a.velocity.0.y, fx(-1.0));
    assert_eq!(a.position.y, fx(3.0));
}

#[test]
fn jump_gating_ceiling_artifact() {
    // The deliberate quirk: a ceiling clamp with jump intent also grants
    // the jump velocity.
    let mut a = at_rest(0, Vec3x { x: 0, y: fx(40.0), z: 0 });
    a.velocity = Velocity(Vec3x { x: 0, y: fx(20.0), z: 0 });
    resolve_bounds(&mut a, &arena16(), true);
    assert_eq!(a.position.y, fx(16.0) - fx(0.5));
    assert_eq!(a.velocity.0.y, 8_437_500);
}

#[test]
fn roster_update_is_per_actor() {
    // The roster system advances each actor independently against its own
    // input.
    let mut actors = vec![
        at_rest(0, Vec3x { x: 0, y: 0, z: 0 }),
        at_rest(1, Vec3x { x: fx(3.0), y: 0, z: fx(3.0) }),
    ];
    let inputs = vec![
        TickInput { intent: forward_intent(), trig: trig_of(0.0) },
        TickInput { intent: idle_intent(), trig: trig_of(0.0) },
    ];
    let s = step(0.1);
    update_physics(&mut actors, &inputs, &s, &arena16());
    assert_eq!(actors.len(), 2);
    assert_eq!(actors[0].velocity.0.z, 4_511_880);
    assert_eq!(actors[1].velocity.0.z, 0);
    assert_eq!(actors[1].position.x, fx(3.0));
    // Both feel gravity.
    assert_eq!(actors[0].velocity.0.y, -2_500_000);
    assert_eq!(actors[1].velocity.0.y, -2_500_000);
}

#[test]
fn diagonal_intent_is_normalized() {
    // Forward+right at yaw 0 accelerates both axes by 1/sqrt(2) of the
    // full rate.
    let mut a = at_rest(0, Vec3x { x: 0, y: 0, z: 0 });
    let intent = Intent { forward: true, back: false, left: false, right: true, jump: false, fire: false };
    let s = step(0.1);
    update_actor_physics(&mut a, &trig_of(0.0), &intent, &s, &arena16());
    let expect = (1.0 - (-0.6f64).exp()) * 60.0 / 6.0 / 2.0f64.sqrt();
    assert!((a.velocity.0.x as f64 / FX - expect).abs() < 0.001);
    assert!((a.velocity.0.z as f64 / FX - expect).abs() < 0.001);
}
