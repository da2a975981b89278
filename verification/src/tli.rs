//! The trans-lunar injection burn of the ICPS: waiting for ignition, burning,
//! done.
use vstd::prelude::*;

verus! {

/// State of the TLI burn.
#[derive(Clone, Copy, Debug, PartialEq, Eq, Structural)]
pub enum TliBurnState {
    Idle,
    Burning,
    Completed,
}

impl Default for TliBurnState {
    fn default() -> (s: Self)
        ensures
            s == TliBurnState::Idle,
    {
        TliBurnState::Idle
    }
}

/// Position of a burn state in order.
pub open spec fn burn_rank(s: TliBurnState) -> int {
    match s {
        TliBurnState::Idle => 0,
        TliBurnState::Burning => 1,
        TliBurnState::Completed => 2,
    }
}

impl TliBurnState {
    /// The ignition key (Space): starts the burn if it has not started yet.
    /// Returns whether the burn started now.
    pub fn ignite(&mut self, key_pressed: bool) -> (started: bool)
        ensures
            started == (*old(self) == TliBurnState::Idle && key_pressed),
            started ==> *final(self) == TliBurnState::Burning,
            !started ==> *final(self) == *old(self),
            burn_rank(*old(self)) <= burn_rank(*final(self)),
    {
        if *self == TliBurnState::Idle && key_pressed {
            *self = TliBurnState::Burning;
            true
        } else {
            false
        }
    }

    /// Whether the burn is under way.
    pub fn is_burning(&self) -> (r: bool)
        ensures
            r == (*self == TliBurnState::Burning),
    {
        *self == TliBurnState::Burning
    }

    /// Ends a running burn once the target burn time is reached, the target
    /// Δv is reached, or the propellant is spent. Returns whether the burn
    /// ended now.
    pub fn finish(&mut self, duration_reached: bool, delta_v_reached: bool, propellant_dry: bool) -> (ended:
        bool)
        ensures
            ended == (*old(self) == TliBurnState::Burning && (duration_reached || delta_v_reached
                || propellant_dry)),
            ended ==> *final(self) == TliBurnState::Completed,
            !ended ==> *final(self) == *old(self),
            burn_rank(*old(self)) <= burn_rank(*final(self)),
    {
        if *self == TliBurnState::Burning && (duration_reached || delta_v_reached || propellant_dry) {
            *self = TliBurnState::Completed;
            true
        } else {
            false
        }
    }
}

} // verus!
