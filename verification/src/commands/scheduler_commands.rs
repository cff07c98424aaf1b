//! Availability of the system for the scheduler commands.
use crate::power_monitor::{is_sleeping, Platform, PowerState};
use vstd::prelude::*;

verus! {

/// Whether the scheduler commands must pause: on macOS when the machine
/// sleeps or its lid is closed; never elsewhere.
pub fn is_system_sleeping(platform: Platform, state: &PowerState, clamshell_closed: bool) -> (r:
    bool)
    ensures
        r == match platform {
            Platform::MacOs => state.sleeping() || clamshell_closed,
            Platform::Other => false,
        },
{
    match platform {
        Platform::MacOs => is_sleeping(state) || clamshell_closed,
        Platform::Other => false,
    }
}

} // verus!
