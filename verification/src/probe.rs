//! What the probes report: the battery's state and whether the peer answers.

use vstd::prelude::*;

verus! {

/// The state of the host's battery as the operating system reports it.
#[derive(Clone, Copy, Debug, PartialEq, Eq, Structural)]
pub enum BatteryState {
    Charging,
    Discharging,
    Full,
    Unknown,
    Empty,
}

impl BatteryState {
    /// Whether the host runs on its battery. `Full`, `Unknown` and `Empty`
    /// count as not discharging: hardware reports them unreliably.
    pub open spec fn discharging(self) -> bool {
        self == BatteryState::Discharging
    }

    /// Whether the host runs on its battery.
    pub fn is_discharging(&self) -> (r: bool)
        ensures
            r == self.discharging(),
    {
        match self {
            BatteryState::Discharging => true,
            _ => false,
        }
    }
}

/// Whether the peer answered a reachability probe.
#[derive(Clone, Copy, Debug, PartialEq, Eq, Structural)]
pub enum ReachabilityState {
    Online,
    Offline,
}

/// What a reachability probe amounts to: `Online` only when the probe itself
/// succeeded and found the peer; a probe that failed or timed out counts as
/// `Offline`.
pub open spec fn status_of(probe: Result<bool, String>) -> ReachabilityState {
    match probe {
        Ok(true) => ReachabilityState::Online,
        _ => ReachabilityState::Offline,
    }
}

/// Folds the outcome of a reachability probe into a reachability state.
pub fn status(probe: Result<bool, String>) -> (r: ReachabilityState)
    ensures
        r == status_of(probe),
{
    match probe {
        Ok(true) => ReachabilityState::Online,
        _ => ReachabilityState::Offline,
    }
}

} // verus!
