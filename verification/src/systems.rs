//! The per-tick systems of the simulation, one module each, run by the
//! frame driver in a fixed order: input, settings, physics, shooting,
//! cameras.

pub mod esc_menu_toggle;
pub mod handle_input;
pub mod handle_settings_input;
pub mod handle_shooting;
pub mod setup_players;
pub mod update_camera_viewports;
pub mod update_physics;
