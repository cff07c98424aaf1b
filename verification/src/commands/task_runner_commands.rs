//! Availability of the system for manual task runs.
use crate::power_monitor::{is_sleeping, Platform, PowerState};
use vstd::prelude::*;

verus! {

/// Whether a manual run must be refused: on macOS when the machine sleeps;
/// never elsewhere.
pub fn is_system_sleeping(platform: Platform, state: &PowerState) -> (r: bool)
    ensures
        r == match platform {
            Platform::MacOs => state.sleeping(),
            Platform::Other => false,
        },
{
    match platform {
        Platform::MacOs => is_sleeping(state),
        Platform::Other => false,
    }
}

} // verus!
