//! Atmospheric reentry: choosing the entry angle, the plunge, subsonic
//! descent, parachutes; and the verdict on the entry.
use vstd::prelude::*;

use crate::config::Difficulty;

verus! {

/// Phase of the reentry.
#[derive(Clone, Copy, Debug, PartialEq, Eq, Structural)]
pub enum ReentryPhase {
    /// The player sets the entry angle, still high above the atmosphere.
    Approach,
    /// In the atmosphere, the angle is locked.
    Entry,
    /// Subsonic descent.
    Descent,
    /// Parachutes deployed.
    Parachutes,
}

impl Default for ReentryPhase {
    fn default() -> (p: Self)
        ensures
            p == ReentryPhase::Approach,
    {
        ReentryPhase::Approach
    }
}

/// Position of a phase in order.
pub open spec fn reentry_rank(p: ReentryPhase) -> int {
    match p {
        ReentryPhase::Approach => 0,
        ReentryPhase::Entry => 1,
        ReentryPhase::Descent => 2,
        ReentryPhase::Parachutes => 3,
    }
}

impl ReentryPhase {
    /// Space locks the angle and starts the entry. Returns whether the entry
    /// started now.
    pub fn commit(&mut self, key_pressed: bool) -> (committed: bool)
        ensures
            committed == (*old(self) == ReentryPhase::Approach && key_pressed),
            committed ==> *final(self) == ReentryPhase::Entry,
            !committed ==> *final(self) == *old(self),
    {
        if *self == ReentryPhase::Approach && key_pressed {
            *self = ReentryPhase::Entry;
            true
        } else {
            false
        }
    }

    /// Whether the capsule is in the atmosphere (the physics runs).
    pub fn in_atmosphere(&self) -> (r: bool)
        ensures
            r == (*self != ReentryPhase::Approach),
    {
        *self != ReentryPhase::Approach
    }

    /// After a physics step: below the parachute altitude the entry turns into
    /// the descent, and below 40 % of it the parachutes open
    /// (`below_threshold` says whether the altitude is below the threshold of
    /// the current phase). Returns whether the parachutes opened now.
    pub fn after_altitude_check(&mut self, below_threshold: bool) -> (deployed: bool)
        ensures
            (*old(self) == ReentryPhase::Entry && below_threshold) ==> *final(self)
                == ReentryPhase::Descent,
            (*old(self) == ReentryPhase::Descent && below_threshold) ==> *final(self)
                == ReentryPhase::Parachutes,
            !((*old(self) == ReentryPhase::Entry || *old(self) == ReentryPhase::Descent)
                && below_threshold) ==> *final(self) == *old(self),
            deployed == (*old(self) == ReentryPhase::Descent && below_threshold),
            reentry_rank(*old(self)) <= reentry_rank(*final(self)),
    {
        if below_threshold {
            match *self {
                ReentryPhase::Entry => {
                    *self = ReentryPhase::Descent;
                    false
                },
                ReentryPhase::Descent => {
                    *self = ReentryPhase::Parachutes;
                    true
                },
                _ => false,
            }
        } else {
            false
        }
    }
}

/// What the outcome check decides this frame.
#[derive(Clone, Copy, Debug, PartialEq, Eq, Structural)]
pub enum ReentryVerdict {
    Continue,
    /// The entry angle is below the window: the capsule skips off.
    AbortTooShallow,
    /// The entry angle is above the window: the capsule overheats.
    AbortTooSteep,
    Splashdown,
}

/// The verdict on the reentry for the given situation.
pub open spec fn verdict_of(
    phase: ReentryPhase,
    already_aborted: bool,
    too_shallow: bool,
    too_steep: bool,
    difficulty: Difficulty,
    landed: bool,
) -> ReentryVerdict {
    if phase == ReentryPhase::Entry && !already_aborted && (too_shallow || too_steep)
        && difficulty == Difficulty::Realistic {
        if too_shallow {
            ReentryVerdict::AbortTooShallow
        } else {
            ReentryVerdict::AbortTooSteep
        }
    } else if phase == ReentryPhase::Parachutes && landed {
        ReentryVerdict::Splashdown
    } else {
        ReentryVerdict::Continue
    }
}

/// The outcome of the reentry this frame. During the entry, before any abort,
/// an angle outside the window aborts on Realistic (too shallow is checked
/// first); under the parachutes, reaching the sea (`landed`) ends the flight.
pub fn reentry_verdict(
    phase: ReentryPhase,
    already_aborted: bool,
    too_shallow: bool,
    too_steep: bool,
    difficulty: Difficulty,
    landed: bool,
) -> (v: ReentryVerdict)
    ensures
        v == verdict_of(phase, already_aborted, too_shallow, too_steep, difficulty, landed),
        (v == ReentryVerdict::Splashdown) == (phase == ReentryPhase::Parachutes && landed),
{
    if phase == ReentryPhase::Entry && !already_aborted {
        if (too_shallow || too_steep) && difficulty == Difficulty::Realistic {
            if too_shallow {
                return ReentryVerdict::AbortTooShallow;
            } else {
                return ReentryVerdict::AbortTooSteep;
            }
        }
    }
    if phase == ReentryPhase::Parachutes && landed {
        ReentryVerdict::Splashdown
    } else {
        ReentryVerdict::Continue
    }
}

/// The reason shown for an abort verdict.
pub open spec fn verdict_reason(v: ReentryVerdict) -> Seq<char> {
    match v {
        ReentryVerdict::AbortTooShallow => "слишком малый угол входа — скользящий отскок"@,
        ReentryVerdict::AbortTooSteep => "слишком крутой угол входа — перегрев"@,
        _ => Seq::empty(),
    }
}

/// The abort reason of an abort verdict, to be shown to the player.
pub fn abort_reason(v: ReentryVerdict) -> (r: Option<&'static str>)
    ensures
        (v == ReentryVerdict::AbortTooShallow || v == ReentryVerdict::AbortTooSteep) ==> (r is Some
            && r->0@ == verdict_reason(v)),
        !(v == ReentryVerdict::AbortTooShallow || v == ReentryVerdict::AbortTooSteep) ==> r is None,
{
    match v {
        ReentryVerdict::AbortTooShallow => Some("слишком малый угол входа — скользящий отскок"),
        ReentryVerdict::AbortTooSteep => Some("слишком крутой угол входа — перегрев"),
        _ => None,
    }
}

/// Whether the heat shield fails now: overheated on Realistic, when the
/// mission has not been aborted already (on Story overheating only warns).
pub fn heat_shield_failure(overheated: bool, difficulty: Difficulty, already_aborted: bool) -> (r:
    bool)
    ensures
        r == (overheated && difficulty == Difficulty::Realistic && !already_aborted),
{
    overheated && difficulty == Difficulty::Realistic && !already_aborted
}

/// Law of the splashdown: on every difficulty and whether or not the mission
/// was aborted, the capsule splashes down exactly when it reaches the sea
/// under parachutes; an abort is given only during the entry, and a capsule
/// under parachutes that has not reached the sea flies on.
pub proof fn lemma_splashdown_under_parachutes(
    phase: ReentryPhase,
    already_aborted: bool,
    too_shallow: bool,
    too_steep: bool,
    difficulty: Difficulty,
    landed: bool,
)
    ensures
        ({
            let v = verdict_of(phase, already_aborted, too_shallow, too_steep, difficulty, landed);
            &&& (v == ReentryVerdict::Splashdown) <==> (phase == ReentryPhase::Parachutes && landed)
            &&& (v == ReentryVerdict::AbortTooShallow || v == ReentryVerdict::AbortTooSteep)
                ==> phase == ReentryPhase::Entry
            &&& (phase == ReentryPhase::Parachutes && !landed) ==> v == ReentryVerdict::Continue
        }),
{
}

/// Law of the entry angle: during the entry, before any abort, on Realistic,
/// an angle outside the window aborts (too shallow named first, then too
/// steep), and an angle inside it lets the entry go on.
pub proof fn lemma_angle_window(
    already_aborted: bool,
    too_shallow: bool,
    too_steep: bool,
    difficulty: Difficulty,
    landed: bool,
)
    ensures
        ({
            let v = verdict_of(ReentryPhase::Entry, already_aborted, too_shallow, too_steep, difficulty, landed);
            &&& (!already_aborted && difficulty == Difficulty::Realistic && too_shallow) ==> v
                == ReentryVerdict::AbortTooShallow
            &&& (!already_aborted && difficulty == Difficulty::Realistic && !too_shallow && too_steep)
                ==> v == ReentryVerdict::AbortTooSteep
            &&& (!too_shallow && !too_steep) ==> v == ReentryVerdict::Continue
            &&& already_aborted ==> v == ReentryVerdict::Continue
        }),
{
}

/// Law: the two abort reasons are shown as two different, non-empty messages.
pub proof fn lemma_abort_reasons_differ()
    ensures
        verdict_reason(ReentryVerdict::AbortTooShallow).len() > 0,
        verdict_reason(ReentryVerdict::AbortTooSteep).len() > 0,
        verdict_reason(ReentryVerdict::AbortTooShallow) != verdict_reason(
            ReentryVerdict::AbortTooSteep,
        ),
{
    reveal_strlit("слишком малый угол входа — скользящий отскок");
    reveal_strlit("слишком крутой угол входа — перегрев");
    assert(verdict_reason(ReentryVerdict::AbortTooShallow)[9] != verdict_reason(
        ReentryVerdict::AbortTooSteep,
    )[9]);
}

/// Law: on Story the entry angle never aborts the reentry, and an abort is
/// never given twice.
pub proof fn lemma_angle_aborts_only_on_realistic(
    phase: ReentryPhase,
    already_aborted: bool,
    too_shallow: bool,
    too_steep: bool,
    difficulty: Difficulty,
    landed: bool,
)
    ensures
        ({
            let v = verdict_of(phase, already_aborted, too_shallow, too_steep, difficulty, landed);
            (v == ReentryVerdict::AbortTooShallow || v == ReentryVerdict::AbortTooSteep) ==> (
            difficulty == Difficulty::Realistic && !already_aborted && phase
                == ReentryPhase::Entry)
        }),
{
}

} // verus!
