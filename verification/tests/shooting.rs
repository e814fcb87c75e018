use arena_sim::components::{Actor, ArenaBounds, Player, Rgb, Velocity, YawTrig};
use arena_sim::systems::handle_shooting::{
    fire_shot, handle_shooting, respawn_coord, respawn_position, shot_direction,
};
use arena_sim::vec3::Vec3x;

const FX: f64 = 1_000_000.0;

fn fx(v: f64) -> i64 {
    (v * FX).round() as i64
}

fn actor_at(id: usize, x: f64, y: f64, z: f64) -> Actor {
    Actor {
        player: Player {
            id,
            yaw: 0,
            pitch: 0,
            radius: fx(0.5),
            height: fx(1.5),
            color: Rgb { r: 0, g: 0, b: 0 },
        },
        position: Vec3x { x: fx(x), y: fx(y), z: fx(z) },
        velocity: Velocity(Vec3x { x: fx(0.1), y: fx(0.2), z: fx(0.3) }),
    }
}

fn arena16() -> ArenaBounds {
    ArenaBounds { scale: fx(16.0) }
}

fn trig_of(a: f64) -> YawTrig {
    YawTrig { sin: fx(a.sin()), cos: fx(a.cos()) }
}

/// Ray straight down -z (yaw 0, pitch 0).
fn dir_minus_z() -> Vec3x {
    shot_direction(&trig_of(0.0), &trig_of(0.0))
}

#[test]
fn shot_direction_components() {
    let d = dir_minus_z();
    assert_eq!((d.x, d.y, d.z), (0, 0, -1_000_000));
    let up = shot_direction(&trig_of(0.0), &trig_of(std::f64::consts::FRAC_PI_2));
    assert_eq!(up.y, 1_000_000);
    assert!(up.z.abs() < 5);
}

#[test]
fn offset_smaller_than_radius_hits() {
    // Target 0.4 to the side of the ray, radius 0.5: hit, and respawned
    // at the position its three samples dictate.
    let shooter = actor_at(0, 0.0, 0.0, 0.0);
    let target = actor_at(1, 0.4, 0.0, -5.0);
    let mut actors = vec![shooter, target];
    let samples: Vec<u32> = vec![0, 0, 0, 0, 2_147_483_648, 1];
    handle_shooting(&mut actors, 0, &dir_minus_z(), &arena16(), &samples);
    // Sample 0 maps to -scale/2, sample 2^31 to 0.
    assert_eq!(actors[1].position.x, -8_000_000);
    assert_eq!(actors[1].position.y, 0);
    // Sample 1 maps to just above -scale/2.
    assert_eq!(actors[1].position.z, -8_000_000);
    // Velocity survives the respawn untouched.
    assert_eq!(actors[1].velocity.0.x, fx(0.1));
    assert_eq!(actors[1].velocity.0.y, fx(0.2));
    // The shooter never moves.
    assert_eq!(actors[0].position.z, 0);
}

#[test]
fn offset_larger_than_radius_misses() {
    // Target 0.6 to the side of the ray, radius 0.5: no hit, nothing moves.
    let shooter = actor_at(0, 0.0, 0.0, 0.0);
    let target = actor_at(1, 0.6, 0.0, -5.0);
    let mut actors = vec![shooter, target];
    let samples: Vec<u32> = vec![7; 6];
    handle_shooting(&mut actors, 0, &dir_minus_z(), &arena16(), &samples);
    assert_eq!(actors[1].position.x, fx(0.6));
    assert_eq!(actors[1].position.z, fx(-5.0));
}

#[test]
fn center_on_ray_hits() {
    // A head center exactly on the ray, in front of the origin, is hit.
    let shooter = actor_at(0, 0.0, 0.0, 0.0);
    let target = actor_at(1, 0.0, 0.0, -5.0);
    let mut actors = vec![shooter, target];
    let samples: Vec<u32> = vec![0; 6];
    handle_shooting(&mut actors, 0, &dir_minus_z(), &arena16(), &samples);
    assert_eq!(actors[1].position.z, -8_000_000);
}

#[test]
fn behind_shooter_never_hits() {
    // A target strictly behind the shooter is never hit, however close.
    let shooter = actor_at(0, 0.0, 0.0, 0.0);
    let target = actor_at(1, 0.0, 0.0, 1.2);
    let mut actors = vec![shooter, target];
    let samples: Vec<u32> = vec![0; 6];
    handle_shooting(&mut actors, 0, &dir_minus_z(), &arena16(), &samples);
    assert_eq!(actors[1].position.z, fx(1.2));
    assert_eq!(actors[1].position.x, 0);
}

#[test]
fn feet_sphere_can_hit() {
    // A ray passing the head by more than the radius but crossing the
    // feet sphere (one unit below) still registers.
    let shooter = actor_at(0, 0.0, 0.0, 0.0);
    let target = actor_at(1, 0.0, 1.0, -5.0);
    // Head center is 1.0 above the ray: miss. Feet center is at
    // 1.0 + 0.5 - 1.5 = 0.0: exactly on the ray, hit.
    let mut actors = vec![shooter, target];
    let samples: Vec<u32> = vec![0; 6];
    handle_shooting(&mut actors, 0, &dir_minus_z(), &arena16(), &samples);
    assert_eq!(actors[1].position.z, -8_000_000);
}

#[test]
fn respawn_bounds_exhaustive_corners() {
    // Every coordinate a respawn can produce lies in [-scale/2, scale/2).
    let scale = fx(16.0);
    for s in [0u32, 1, 2_147_483_647, 2_147_483_648, u32::MAX] {
        let c = respawn_coord(s, scale);
        assert!(c >= -scale / 2);
        assert!(c < scale / 2);
    }
    assert_eq!(respawn_coord(0, scale), -8_000_000);
    assert_eq!(respawn_coord(2_147_483_648, scale), 0);
    assert_eq!(respawn_coord(u32::MAX, scale), 7_999_999);
}

#[test]
fn respawn_position_in_range() {
    let p = respawn_position(123_456_789, 3_456_789_012, 987_654_321, &arena16());
    for c in [p.x, p.y, p.z] {
        assert!(c >= -8_000_000 && c < 8_000_000);
    }
}

#[test]
fn fire_shot_moves_hit_target_into_respawn_region() {
    // Through the random path: a certain hit standing outside the respawn
    // region must land inside it, whatever the generator returned.
    let shooter = actor_at(0, 0.0, 0.0, 0.0);
    let target = actor_at(1, 0.0, 0.0, -12.0);
    let bystander = actor_at(2, 9.0, 0.0, 9.0);
    let mut actors = vec![shooter, target, bystander];
    fire_shot(&mut actors, 0, &trig_of(0.0), &trig_of(0.0), &arena16());
    assert!(actors[1].position.z >= -8_000_000 && actors[1].position.z < 8_000_000);
    assert!(actors[1].position.x >= -8_000_000 && actors[1].position.x < 8_000_000);
    // The bystander, off the ray, did not move.
    assert_eq!(actors[2].position.x, fx(9.0));
    assert_eq!(actors[2].position.z, fx(9.0));
}
