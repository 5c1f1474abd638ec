//! The decisions of the link to Microsoft Flight Simulator.
use vstd::prelude::*;

use crate::Mode;

verus! {

/// Which of the simulator's freezes are on: of position, of altitude, of attitude.
#[derive(Debug, Clone, Copy, PartialEq, Eq, Structural)]
pub struct FreezeFlags {
    pub lat_long: bool,
    pub altitude: bool,
    pub attitude: bool,
}

/// Whether the simulator's own flight model is frozen in `mode`: only a
/// follower's is, since its aircraft is placed by the session.
pub fn wants_frozen(mode: Mode) -> (frozen: bool)
    ensures
        frozen == (mode == Mode::Slave),
{
    match mode {
        Mode::Slave => true,
        _ => false,
    }
}

/// Which freezes are to be toggled so that all of them are `frozen`: the
/// ones that differ from it, since the simulator only offers toggles.
pub fn freeze_toggles(current: FreezeFlags, frozen: bool) -> (toggle: FreezeFlags)
    ensures
        toggle.lat_long == (current.lat_long != frozen),
        toggle.altitude == (current.altitude != frozen),
        toggle.attitude == (current.attitude != frozen),
{
    FreezeFlags {
        lat_long: current.lat_long != frozen,
        altitude: current.altitude != frozen,
        attitude: current.attitude != frozen,
    }
}

/// The freezes after toggling.
pub open spec fn apply_toggles(current: FreezeFlags, toggle: FreezeFlags) -> FreezeFlags {
    FreezeFlags {
        lat_long: current.lat_long != toggle.lat_long,
        altitude: current.altitude != toggle.altitude,
        attitude: current.attitude != toggle.attitude,
    }
}

/// Toggling what `freeze_toggles` names leaves every freeze as asked.
pub proof fn lemma_toggles_reach_target(current: FreezeFlags, frozen: bool, toggle: FreezeFlags)
    requires
        toggle.lat_long == (current.lat_long != frozen),
        toggle.altitude == (current.altitude != frozen),
        toggle.attitude == (current.attitude != frozen),
    ensures
        apply_toggles(current, toggle) == (FreezeFlags {
            lat_long: frozen,
            altitude: frozen,
            attitude: frozen,
        }),
{
}

} // verus!
