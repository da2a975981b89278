//! The lunar flyby: approach, passage of the perilune, departure.
use vstd::prelude::*;

verus! {

/// Phase of the flyby.
#[derive(Clone, Copy, Debug, PartialEq, Eq, Structural)]
pub enum FlybyPhase {
    Approach,
    Perilune,
    Departure,
}

impl Default for FlybyPhase {
    fn default() -> (p: Self)
        ensures
            p == FlybyPhase::Approach,
    {
        FlybyPhase::Approach
    }
}

/// The translation key of the name of phase `p` shown in the flyby panel.
pub open spec fn phase_key_text(p: FlybyPhase) -> Seq<char> {
    match p {
        FlybyPhase::Approach => "flyby.phase.approach"@,
        FlybyPhase::Perilune => "flyby.phase.perilune"@,
        FlybyPhase::Departure => "flyby.phase.departure"@,
    }
}

/// The translation key of the name of phase `p` shown in the flyby panel.
pub fn phase_key(p: FlybyPhase) -> (r: &'static str)
    ensures
        r@ == phase_key_text(p),
{
    match p {
        FlybyPhase::Approach => "flyby.phase.approach",
        FlybyPhase::Perilune => "flyby.phase.perilune",
        FlybyPhase::Departure => "flyby.phase.departure",
    }
}

/// Position of a phase in order.
pub open spec fn flyby_rank(p: FlybyPhase) -> int {
    match p {
        FlybyPhase::Approach => 0,
        FlybyPhase::Perilune => 1,
        FlybyPhase::Departure => 2,
    }
}

/// The progress of the flyby: its phase, whether the perilune was noted, and
/// whether the departure has begun.
#[derive(Clone, Copy, Debug, PartialEq, Eq, Structural)]
pub struct FlybyProgress {
    pub phase: FlybyPhase,
    pub perilune_fired: bool,
    pub departure_started: bool,
}

impl Default for FlybyProgress {
    fn default() -> (p: Self)
        ensures
            p.phase == FlybyPhase::Approach,
            !p.perilune_fired,
            !p.departure_started,
    {
        FlybyProgress { phase: FlybyPhase::Approach, perilune_fired: false, departure_started: false }
    }
}

/// The order of the flyby: the departure begins only from a noted perilune.
pub open spec fn well_ordered(p: FlybyProgress) -> bool {
    &&& p.departure_started ==> p.perilune_fired && p.phase == FlybyPhase::Departure
    &&& p.perilune_fired ==> flyby_rank(p.phase) >= 1
}

impl FlybyProgress {
    /// Once Orion moves away from the Moon (`receding`: positive radial
    /// velocity) during the approach, the perilune is being passed.
    pub fn note_motion(&mut self, receding: bool)
        ensures
            (old(self).phase == FlybyPhase::Approach && receding) ==> final(self).phase
                == FlybyPhase::Perilune,
            !(old(self).phase == FlybyPhase::Approach && receding) ==> final(self).phase == old(self).phase,
            final(self).perilune_fired == old(self).perilune_fired,
            final(self).departure_started == old(self).departure_started,
            well_ordered(*old(self)) ==> well_ordered(*final(self)),
            flyby_rank(old(self).phase) <= flyby_rank(final(self).phase),
    {
        if self.phase == FlybyPhase::Approach && receding {
            self.phase = FlybyPhase::Perilune;
        }
    }

    /// Whether the perilune was noted and the departure is awaited; the
    /// perilune dwell is counted only then.
    pub fn awaiting_departure(&self) -> (r: bool)
        ensures
            r == (self.phase == FlybyPhase::Perilune && self.perilune_fired
                && !self.departure_started),
    {
        self.phase == FlybyPhase::Perilune && self.perilune_fired && !self.departure_started
    }

    /// Notes the perilune the first time the perilune phase is seen.
    pub fn note_perilune(&mut self)
        ensures
            (old(self).phase == FlybyPhase::Perilune && !old(self).perilune_fired) ==> final(self).perilune_fired,
            final(self).phase == old(self).phase,
            final(self).departure_started == old(self).departure_started,
            old(self).perilune_fired ==> final(self).perilune_fired,
            !(old(self).phase == FlybyPhase::Perilune) ==> *final(self) == *old(self),
            well_ordered(*old(self)) ==> well_ordered(*final(self)),
    {
        if self.phase == FlybyPhase::Perilune && !self.perilune_fired {
            self.perilune_fired = true;
        }
    }

    /// After the dwell at the noted perilune (`dwell_done`), the departure
    /// begins. Returns whether it began now.
    pub fn depart(&mut self, dwell_done: bool) -> (departed: bool)
        ensures
            departed == (old(self).phase == FlybyPhase::Perilune && old(self).perilune_fired
                && !old(self).departure_started && dwell_done),
            departed ==> {
                &&& final(self).phase == FlybyPhase::Departure
                &&& final(self).perilune_fired
                &&& final(self).departure_started
            },
            !departed ==> *final(self) == *old(self),
            well_ordered(*old(self)) ==> well_ordered(*final(self)),
            flyby_rank(old(self).phase) <= flyby_rank(final(self).phase),
    {
        if self.awaiting_departure() && dwell_done {
            self.phase = FlybyPhase::Departure;
            self.departure_started = true;
            true
        } else {
            false
        }
    }

    /// Whether the flyby is over: departing and far enough from the Moon
    /// (`far_enough`), so that the reentry stage follows.
    pub fn departure_complete(&self, far_enough: bool) -> (r: bool)
        ensures
            r == (self.phase == FlybyPhase::Departure && far_enough),
    {
        self.phase == FlybyPhase::Departure && far_enough
    }
}

} // verus!
