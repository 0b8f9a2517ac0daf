//! Workspace-to-governor policy and the idle-time thresholds.

use vstd::prelude::*;

verus! {

/// Seconds of inactivity before the warning fires while the active
/// workspace has at least one window.
pub const WARNING_SECS_OCCUPIED: u32 = 1500;

/// Seconds of inactivity before the suspend action fires while the active
/// workspace has at least one window.
pub const HIBERNATE_SECS_OCCUPIED: u32 = 1800;

/// Seconds of inactivity before the warning fires while the active
/// workspace has no windows.
pub const WARNING_SECS_EMPTY: u32 = 300;

/// Seconds of inactivity before the suspend action fires while the active
/// workspace has no windows.
pub const HIBERNATE_SECS_EMPTY: u32 = 600;

/// The warning threshold selected by current window occupancy.
pub open spec fn spec_warning_secs(windows: bool) -> int {
    if windows {
        WARNING_SECS_OCCUPIED as int
    } else {
        WARNING_SECS_EMPTY as int
    }
}

/// The suspend threshold selected by current window occupancy.
pub open spec fn spec_hibernate_secs(windows: bool) -> int {
    if windows {
        HIBERNATE_SECS_OCCUPIED as int
    } else {
        HIBERNATE_SECS_EMPTY as int
    }
}

/// CPU frequency-scaling preset applied through the system governor.
#[derive(Clone, Copy, PartialEq, Eq, Debug, Structural)]
pub enum Preset {
    Performance,
    Powersave,
}

/// The fixed membership rule behind [`select_preset`]: the three
/// foreground workspaces run the `performance` governor, every other
/// identifier selects `powersave`.
pub open spec fn spec_select_preset(id: Seq<char>) -> Preset {
    if id == "1"@ || id == "3"@ || id == "4"@ {
        Preset::Performance
    } else {
        Preset::Powersave
    }
}

/// Maps the active workspace identifier to a governor preset.  The mapping
/// is a pure function of the identifier alone: workspaces `"1"`, `"3"` and
/// `"4"` are designated foreground/performance workspaces; any other
/// identifier (including whatever a failed query falls back to) selects
/// `powersave`.
pub fn select_preset(id: &String) -> (p: Preset)
    ensures
        p == spec_select_preset(id@),
{
    if *id == String::from_str("1") || *id == String::from_str("3") || *id == String::from_str("4") {
        Preset::Performance
    } else {
        Preset::Powersave
    }
}

} // verus!
