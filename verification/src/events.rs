//! Mission events, and the record of why a mission failed.
use vstd::prelude::*;

verus! {

/// Events of the mission that other parts of the game react to.
#[derive(Clone, Debug)]
pub enum MissionEvent {
    Liftoff,
    SrbSep,
    Meco,
    TliBurnStart,
    TliBurnEnd,
    PerilunePassage,
    AtmosphereEntry,
    Splashdown,
    /// The mission is aborted, with the reason shown to the player.
    Abort(String),
}

/// Why the mission failed; `None` while it is in progress or when it succeeded.
pub struct MissionFailed {
    pub reason: Option<String>,
}

impl Default for MissionFailed {
    fn default() -> (m: Self)
        ensures
            m.reason is None,
    {
        MissionFailed { reason: None }
    }
}

/// The failure reason after taking note of `event`, given the reason before:
/// the first abort sets it, nothing changes it afterwards.
pub open spec fn reason_after(reason: Option<String>, event: MissionEvent) -> Option<String> {
    match (reason, event) {
        (None, MissionEvent::Abort(r)) => Some(r),
        _ => reason,
    }
}

/// Law: once the mission has failed, its reason stays what the first abort
/// said, whatever happens next.
pub proof fn lemma_first_abort_wins(first: String, event: MissionEvent)
    ensures
        reason_after(Some(first), event) == Some(first),
        reason_after(reason_after(None, MissionEvent::Abort(first)), event) == Some(first),
        !(event is Abort) ==> reason_after(None, event) is None,
{
}

impl MissionFailed {
    /// Takes note of `event`: the first abort of a mission gives the reason of
    /// the failure; later aborts and other events leave it as it is.
    pub fn observe(&mut self, event: &MissionEvent)
        ensures
            final(self).reason == reason_after(old(self).reason, *event),
    {
        if let MissionEvent::Abort(reason) = event {
            if self.reason.is_none() {
                self.reason = Some(reason.clone());
            }
        }
    }

    /// Clears the failure when a new mission starts.
    pub fn clear(&mut self)
        ensures
            final(self).reason is None,
    {
        self.reason = None;
    }
}

} // verus!
