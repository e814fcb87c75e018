use arena_sim::components::{AppMode, GameMode, Player, PlayerCount, Rgb, SettingsRes};
use arena_sim::helpers::init_edges::init_edges;
use arena_sim::systems::esc_menu_toggle::{cursor_visible, esc_menu_toggle};
use arena_sim::systems::handle_input::handle_input;
use arena_sim::systems::handle_settings_input::handle_settings_input;
use arena_sim::systems::setup_players::setup_players;
use arena_sim::systems::update_camera_viewports::{camera_viewport, Viewport};

#[test]
fn esc_toggles_between_playing_and_menu() {
    let mut mode = GameMode(AppMode::Playing);
    esc_menu_toggle(&mut mode, true);
    assert_eq!(mode.0, AppMode::Menu);
    esc_menu_toggle(&mut mode, true);
    assert_eq!(mode.0, AppMode::Playing);
    let mut settings = GameMode(AppMode::Settings);
    esc_menu_toggle(&mut settings, true);
    assert_eq!(settings.0, AppMode::Playing);
    esc_menu_toggle(&mut settings, false);
    assert_eq!(settings.0, AppMode::Playing);
}

#[test]
fn cursor_follows_mode() {
    assert!(!cursor_visible(&GameMode(AppMode::Playing)));
    assert!(cursor_visible(&GameMode(AppMode::Menu)));
    assert!(cursor_visible(&GameMode(AppMode::Settings)));
}

fn look_player() -> Player {
    Player { id: 0, yaw: 500_000, pitch: 0, radius: 500_000, height: 1_500_000, color: Rgb { r: 0, g: 0, b: 0 } }
}

#[test]
fn pointer_look_updates_yaw_and_clamps_pitch() {
    let mut p = look_player();
    let mut count = PlayerCount(1);
    // Sensitivity 0.0025; a delta of 100 turns into 0.25 rad.
    handle_input(&mut p, &mut count, (false, false, false, false), 100_000_000, -2_000_000_000, 2_500);
    assert_eq!(p.yaw, 500_000 - 250_000);
    // Pitch delta of -2000 * 0.0025 = +5 rad clamps to 1.6.
    assert_eq!(p.pitch, 1_600_000);

    let mut q = look_player();
    handle_input(&mut q, &mut count, (false, false, false, false), 0, 2_000_000_000, 2_500);
    assert_eq!(q.pitch, -1_600_000);
    assert_eq!(q.yaw, 500_000);
}

#[test]
fn digit_keys_grow_roster_never_shrink() {
    let mut p = look_player();
    let mut count = PlayerCount(1);
    handle_input(&mut p, &mut count, (false, false, true, false), 0, 0, 2_500);
    assert_eq!(count.0, 3);
    // A lower digit no longer shrinks it.
    handle_input(&mut p, &mut count, (true, true, false, false), 0, 0, 2_500);
    assert_eq!(count.0, 3);
    handle_input(&mut p, &mut count, (false, false, false, true), 0, 0, 2_500);
    assert_eq!(count.0, 4);
}

#[test]
fn settings_steps_and_saturates() {
    let mut s = SettingsRes { sensitivity: 2_500, crosshair_half: 150_000 };
    handle_settings_input(&mut s, true, false, false, true);
    assert_eq!(s.crosshair_half, 130_000);
    assert_eq!(s.sensitivity, 3_000);
    // Saturate the crosshair at its floor of 0.02.
    let mut t = SettingsRes { sensitivity: 100, crosshair_half: 30_000 };
    handle_settings_input(&mut t, true, false, true, false);
    assert_eq!(t.crosshair_half, 20_000);
    assert_eq!(t.sensitivity, 100);
    handle_settings_input(&mut t, true, false, false, false);
    assert_eq!(t.crosshair_half, 20_000);
    // And the ceiling of 1.0 / 0.02.
    let mut u = SettingsRes { sensitivity: 19_900, crosshair_half: 995_000 };
    handle_settings_input(&mut u, false, true, false, true);
    assert_eq!(u.crosshair_half, 1_000_000);
    assert_eq!(u.sensitivity, 20_000);
}

#[test]
fn initial_roster_layout() {
    let actors = setup_players();
    assert_eq!(actors.len(), 4);
    for (i, a) in actors.iter().enumerate() {
        assert_eq!(a.player.id, i);
        assert_eq!(a.player.radius, 500_000);
        assert_eq!(a.player.height, 1_500_000);
        assert_eq!(a.player.pitch, -785_398);
        assert_eq!(a.position.y, 0);
        assert_eq!(a.velocity.0.x, 0);
        assert_eq!(a.velocity.0.y, 0);
        assert_eq!(a.velocity.0.z, 0);
    }
    // Quadrant spread.
    assert_eq!((actors[0].position.x, actors[0].position.z), (8_000_000, 8_000_000));
    assert_eq!((actors[1].position.x, actors[1].position.z), (-8_000_000, -8_000_000));
    assert_eq!((actors[2].position.x, actors[2].position.z), (8_000_000, -8_000_000));
    assert_eq!((actors[3].position.x, actors[3].position.z), (-8_000_000, 8_000_000));
    // Yaw: pi/2, then +pi for odd ids, +pi/2 more for ids 2 and 3.
    assert_eq!(actors[0].player.yaw, 1_570_796);
    assert_eq!(actors[1].player.yaw, 1_570_796 + 3_141_593);
    assert_eq!(actors[2].player.yaw, 1_570_796 + 1_570_796);
    assert_eq!(actors[3].player.yaw, 1_570_796 + 3_141_593 + 1_570_796);
    // Colors: green/magenta pair, then red/cyan.
    assert_eq!((actors[0].player.color.r, actors[0].player.color.g, actors[0].player.color.b), (0, 255, 0));
    assert_eq!((actors[1].player.color.r, actors[1].player.color.g, actors[1].player.color.b), (255, 0, 255));
    assert_eq!((actors[2].player.color.r, actors[2].player.color.g, actors[2].player.color.b), (255, 0, 0));
    assert_eq!((actors[3].player.color.r, actors[3].player.color.g, actors[3].player.color.b), (0, 255, 255));
}

#[test]
fn viewports_partition_the_window() {
    // One player: full window.
    assert_eq!(
        camera_viewport(0, 1, 1920, 1080),
        Some(Viewport { x: 0, y: 0, width: 1920, height: 1080 })
    );
    assert_eq!(camera_viewport(1, 1, 1920, 1080), None);
    // Two players: side by side.
    assert_eq!(
        camera_viewport(1, 2, 1920, 1080),
        Some(Viewport { x: 960, y: 0, width: 960, height: 1080 })
    );
    // Four players: quarters, row major.
    assert_eq!(
        camera_viewport(3, 4, 1920, 1080),
        Some(Viewport { x: 960, y: 540, width: 960, height: 540 })
    );
    assert_eq!(
        camera_viewport(2, 3, 1920, 1080),
        Some(Viewport { x: 0, y: 540, width: 960, height: 540 })
    );
}

#[test]
fn wireframe_edge_count_and_corners() {
    let e = init_edges(16);
    assert_eq!(e.0.len(), 12 + 4 * 16);
    let r = 16_000_000i64;
    // First box edge: corner 0 to corner 1 of the bottom ring.
    assert_eq!((e.0[0].0.x, e.0[0].0.y, e.0[0].0.z), (-r, -r, -r));
    assert_eq!((e.0[0].1.x, e.0[0].1.y, e.0[0].1.z), (r, -r, -r));
    // First grid line: across the floor at z = -r.
    assert_eq!((e.0[12].0.x, e.0[12].0.y, e.0[12].0.z), (-r, -r, -r));
    assert_eq!((e.0[12].1.x, e.0[12].1.y, e.0[12].1.z), (r, -r, -r));
    // Second grid line runs the other way.
    assert_eq!((e.0[13].0.x, e.0[13].0.y, e.0[13].0.z), (-r, -r, -r));
    assert_eq!((e.0[13].1.x, e.0[13].1.y, e.0[13].1.z), (-r, -r, r));
    // A later step sits two units in.
    assert_eq!(e.0[16].0.z, 2_000_000 - r);
    let empty = init_edges(0);
    assert_eq!(empty.0.len(), 12);
}
