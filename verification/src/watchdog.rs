//! Idle watchdog: arms the one idle notification this system listens to.
//!
//! Arming requires the seat and the idle-signal capability to be already
//! bound. The resulting subscription delivers exactly two meaningful
//! signal kinds over its lifetime — became idle, resumed from idle — and
//! the watchdog only reports them; acting on them is the state machine's
//! business.

use vstd::prelude::*;

use crate::registry::Registry;

verus! {

/// The request that creates the idle-notification subscription: no seat
/// input for `threshold_ms` milliseconds means idle.
#[derive(Clone, Copy, PartialEq, Eq, Structural, Debug)]
pub struct ArmRequest {
    pub threshold_ms: u32,
    /// Registry name of the seat whose input is watched.
    pub seat: u32,
}

/// Arm the watchdog on the registry's tracked seat with the given idle
/// threshold.
pub fn arm(reg: &Registry, threshold_ms: u32) -> (r: ArmRequest)
    requires
        reg.seat is Some,
        reg.has_idle_notifier,
    ensures
        r.threshold_ms == threshold_ms,
        Some(r.seat) == reg.seat,
{
    match reg.seat {
        Some(s) => ArmRequest { threshold_ms, seat: s },
        None => unreached(),
    }
}

} // verus!
