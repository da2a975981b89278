//! The mission clock: when it runs and how it is shown.
use vstd::prelude::*;
use vstd::string::StringExecFns;

use crate::states::{stage_index, MissionStage};
use crate::text::{append_two_digits, two_digits};

verus! {

/// Whether the mission clock (T+) advances in `stage`: it stands still while
/// assets load and during the prelaunch checklist.
pub open spec fn clock_runs_in(stage: MissionStage) -> bool {
    !(stage is Loading || stage is Prelaunch)
}

/// Whether the mission clock advances in `stage`.
pub fn mission_clock_runs(stage: MissionStage) -> (r: bool)
    ensures
        r == clock_runs_in(stage),
        r == (stage != MissionStage::Loading && stage != MissionStage::Prelaunch),
{
    match stage {
        MissionStage::Loading | MissionStage::Prelaunch => false,
        _ => true,
    }
}

/// Law: the mission clock runs from the launch on. It stands still exactly in
/// the stages before Launch (Loading and Prelaunch) and runs in Launch and in
/// every stage after it, the transit and the flyby included.
pub proof fn lemma_clock_runs_from_launch(stage: MissionStage)
    ensures
        clock_runs_in(stage) <==> stage_index(stage) >= stage_index(MissionStage::Launch),
        clock_runs_in(stage) <==> (stage != MissionStage::Loading && stage
            != MissionStage::Prelaunch),
{
}

/// `total_s` seconds as `HH:MM:SS`: hours zero padded to at least two digits,
/// minutes and seconds to exactly two.
pub open spec fn clock_text(total_s: nat) -> Seq<char> {
    two_digits(total_s / 3600) + seq![':'] + two_digits((total_s / 60) % 60) + seq![':']
        + two_digits(total_s % 60)
}

/// Renders a mission time given in whole seconds as `HH:MM:SS`.
pub fn fmt_clock(total_s: u64) -> (r: String)
    ensures
        r@ == clock_text(total_s as nat),
{
    let h = total_s / 3600;
    let m = (total_s / 60) % 60;
    let s = total_s % 60;
    let mut out = String::new();
    append_two_digits(&mut out, h);
    proof {
        reveal_strlit(":");
    }
    out.append(":");
    append_two_digits(&mut out, m);
    out.append(":");
    append_two_digits(&mut out, s);
    assert(out@ =~= clock_text(total_s as nat));
    out
}

} // verus!
