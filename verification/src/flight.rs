//! The powered-flight phases of the SLS: boosters and core stage together,
//! core stage alone after SRB separation, and coast after main engine cutoff.
use vstd::prelude::*;

verus! {

/// The phase of powered flight.
#[derive(Clone, Copy, Debug, PartialEq, Eq, Structural)]
pub enum FlightPhase {
    BoosterPhase,
    CoreOnly,
    Coast,
}

/// Position of a phase in flight order.
pub open spec fn phase_rank(p: FlightPhase) -> int {
    match p {
        FlightPhase::BoosterPhase => 0,
        FlightPhase::CoreOnly => 1,
        FlightPhase::Coast => 2,
    }
}

/// SRB separation: once the booster burn time has passed
/// (`burn_time_reached`), the boosters are dropped and the core stage flies
/// alone. Returns whether the separation happened now.
pub fn srb_separation(phase: &mut FlightPhase, burn_time_reached: bool) -> (separated: bool)
    ensures
        separated == (*old(phase) == FlightPhase::BoosterPhase && burn_time_reached),
        separated ==> *final(phase) == FlightPhase::CoreOnly,
        !separated ==> *final(phase) == *old(phase),
        phase_rank(*old(phase)) <= phase_rank(*final(phase)),
{
    if *phase == FlightPhase::BoosterPhase && burn_time_reached {
        *phase = FlightPhase::CoreOnly;
        true
    } else {
        false
    }
}

/// Scheduled main engine cutoff: once the MECO time has passed
/// (`meco_time_reached`), the core stage shuts down. Returns whether MECO
/// happened now.
pub fn scheduled_meco(phase: &mut FlightPhase, meco_time_reached: bool) -> (cut: bool)
    ensures
        cut == (*old(phase) == FlightPhase::CoreOnly && meco_time_reached),
        cut ==> *final(phase) == FlightPhase::Coast,
        !cut ==> *final(phase) == *old(phase),
        phase_rank(*old(phase)) <= phase_rank(*final(phase)),
{
    if *phase == FlightPhase::CoreOnly && meco_time_reached {
        *phase = FlightPhase::Coast;
        true
    } else {
        false
    }
}

/// Manual engine cutoff (key X or the cutoff button): every engine still
/// burning shuts down. Returns whether there was one to shut down.
pub fn engine_cutoff(phase: &mut FlightPhase) -> (triggered: bool)
    ensures
        triggered == (*old(phase) != FlightPhase::Coast),
        *final(phase) == FlightPhase::Coast,
        phase_rank(*old(phase)) <= phase_rank(*final(phase)),
{
    if *phase != FlightPhase::Coast {
        *phase = FlightPhase::Coast;
        true
    } else {
        false
    }
}

/// Whether the throttle can be changed: the RS-25 engines are throttled only
/// once the boosters are gone, before cutoff.
pub fn throttle_adjustable(phase: FlightPhase) -> (r: bool)
    ensures
        r == (phase == FlightPhase::CoreOnly),
{
    phase == FlightPhase::CoreOnly
}

/// Whether engines are burning, so that the pitch is watched for an abort.
pub fn engines_burning(phase: FlightPhase) -> (r: bool)
    ensures
        r == (phase != FlightPhase::Coast),
{
    phase != FlightPhase::Coast
}

} // verus!
