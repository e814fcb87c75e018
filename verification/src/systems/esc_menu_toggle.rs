//! Menu toggling and the cursor policy that follows the mode.

use vstd::prelude::*;

use crate::components::{AppMode, GameMode};

verus! {

/// Where the escape key sends each mode: play pauses into the menu,
/// everything else resumes play.
pub open spec fn toggled(m: AppMode) -> AppMode {
    match m {
        AppMode::Playing => AppMode::Menu,
        _ => AppMode::Playing,
    }
}

/// Applies one escape press (or none) to the mode.
pub fn esc_menu_toggle(mode: &mut GameMode, esc_pressed: bool)
    ensures
        final(mode).0 == if esc_pressed {
            toggled(old(mode).0)
        } else {
            old(mode).0
        },
{
    if esc_pressed {
        mode.0 = match mode.0 {
            AppMode::Playing => AppMode::Menu,
            _ => AppMode::Playing,
        };
    }
}

/// The pointer is captured exactly while playing; any menu frees it.
pub fn cursor_visible(mode: &GameMode) -> (r: bool)
    ensures
        r == (mode.0 != AppMode::Playing),
{
    match mode.0 {
        AppMode::Playing => false,
        _ => true,
    }
}

} // verus!
