//! Settings adjustment: bracket keys step the crosshair size and the
//! minus/equals keys step the sensitivity, each held inside its range.

use vstd::prelude::*;

use crate::components::SettingsRes;

verus! {

/// The crosshair half-length after one tick of bracket presses: a step
/// of 0.02 down then up, saturating at 0.02 and 1.0.
pub open spec fn crosshair_adjusted(ch: int, dec: bool, inc: bool) -> int {
    let a = if dec {
        if ch - 20_000 >= 20_000 {
            ch - 20_000
        } else {
            20_000int
        }
    } else {
        ch
    };
    if inc {
        if a + 20_000 <= 1_000_000 {
            a + 20_000
        } else {
            1_000_000int
        }
    } else {
        a
    }
}

/// The sensitivity after one tick of minus/equals presses: a step of
/// 0.0005 down then up, saturating at 0.0001 and 0.02.
pub open spec fn sensitivity_adjusted(s: int, dec: bool, inc: bool) -> int {
    let a = if dec {
        if s - 500 >= 100 {
            s - 500
        } else {
            100int
        }
    } else {
        s
    };
    if inc {
        if a + 500 <= 20_000 {
            a + 500
        } else {
            20_000int
        }
    } else {
        a
    }
}

/// Applies one tick of settings keys, in the fixed order the frame driver
/// reads them: crosshair down, crosshair up, sensitivity down,
/// sensitivity up.
pub fn handle_settings_input(
    settings: &mut SettingsRes,
    ch_dec: bool,
    ch_inc: bool,
    sens_dec: bool,
    sens_inc: bool,
)
    requires
        old(settings).wf(),
    ensures
        final(settings).crosshair_half == crosshair_adjusted(
            old(settings).crosshair_half as int,
            ch_dec,
            ch_inc,
        ),
        final(settings).sensitivity == sensitivity_adjusted(
            old(settings).sensitivity as int,
            sens_dec,
            sens_inc,
        ),
        final(settings).wf(),
{
    if ch_dec {
        settings.crosshair_half = if settings.crosshair_half - 20_000 >= 20_000 {
            settings.crosshair_half - 20_000
        } else {
            20_000
        };
    }
    if ch_inc {
        settings.crosshair_half = if settings.crosshair_half + 20_000 <= 1_000_000 {
            settings.crosshair_half + 20_000
        } else {
            1_000_000
        };
    }
    if sens_dec {
        settings.sensitivity = if settings.sensitivity - 500 >= 100 {
            settings.sensitivity - 500
        } else {
            100
        };
    }
    if sens_inc {
        settings.sensitivity = if settings.sensitivity + 500 <= 20_000 {
            settings.sensitivity + 500
        } else {
            20_000
        };
    }
}

} // verus!
