//! The stages of the mission and their order.
use vstd::prelude::*;

verus! {

/// The stages of the mission, in flight order.
#[derive(Clone, Copy, Debug, PartialEq, Eq, Structural, Hash)]
pub enum MissionStage {
    Loading,
    Prelaunch,
    Launch,
    Orbit,
    TLI,
    Transit,
    LunarFlyby,
    Reentry,
    Splashdown,
}

impl Default for MissionStage {
    fn default() -> (s: Self)
        ensures
            s == MissionStage::Loading,
    {
        MissionStage::Loading
    }
}

/// The stage at position `i` of the flight order (Loading is 0, Splashdown 8).
pub open spec fn stage_at(i: int) -> MissionStage {
    if i <= 0 {
        MissionStage::Loading
    } else if i == 1 {
        MissionStage::Prelaunch
    } else if i == 2 {
        MissionStage::Launch
    } else if i == 3 {
        MissionStage::Orbit
    } else if i == 4 {
        MissionStage::TLI
    } else if i == 5 {
        MissionStage::Transit
    } else if i == 6 {
        MissionStage::LunarFlyby
    } else if i == 7 {
        MissionStage::Reentry
    } else {
        MissionStage::Splashdown
    }
}

/// The position of `stage` in the flight order (Loading is 0, Splashdown 8).
pub open spec fn stage_index(stage: MissionStage) -> int {
    match stage {
        MissionStage::Loading => 0,
        MissionStage::Prelaunch => 1,
        MissionStage::Launch => 2,
        MissionStage::Orbit => 3,
        MissionStage::TLI => 4,
        MissionStage::Transit => 5,
        MissionStage::LunarFlyby => 6,
        MissionStage::Reentry => 7,
        MissionStage::Splashdown => 8,
    }
}

/// Law of the flight order: every stage has one position from 0 to 8, the
/// stage at that position is the stage itself, and different stages have
/// different positions.
pub proof fn lemma_flight_order(a: MissionStage, b: MissionStage)
    ensures
        0 <= stage_index(a) <= 8,
        stage_at(stage_index(a)) == a,
        a != b ==> stage_index(a) != stage_index(b),
        forall|i: int| 0 <= i <= 8 ==> stage_index(#[trigger] stage_at(i)) == i,
        forall|i: int|
            0 <= i <= 8 ==> #[trigger] stage_at(i) == seq![
                MissionStage::Loading,
                MissionStage::Prelaunch,
                MissionStage::Launch,
                MissionStage::Orbit,
                MissionStage::TLI,
                MissionStage::Transit,
                MissionStage::LunarFlyby,
                MissionStage::Reentry,
                MissionStage::Splashdown,
            ][i],
{
}

/// The translation key of the name of `stage` shown in the HUD.
pub open spec fn stage_key_text(stage: MissionStage) -> Seq<char> {
    match stage {
        MissionStage::Loading => "stage.loading"@,
        MissionStage::Prelaunch => "stage.prelaunch"@,
        MissionStage::Launch => "stage.launch"@,
        MissionStage::Orbit => "stage.orbit"@,
        MissionStage::TLI => "stage.tli"@,
        MissionStage::Transit => "stage.transit"@,
        MissionStage::LunarFlyby => "stage.lunar_flyby"@,
        MissionStage::Reentry => "stage.reentry"@,
        MissionStage::Splashdown => "stage.splashdown"@,
    }
}

/// The translation key of the name of `stage` shown in the HUD.
pub fn stage_key(stage: MissionStage) -> (r: &'static str)
    ensures
        r@ == stage_key_text(stage),
{
    match stage {
        MissionStage::Loading => "stage.loading",
        MissionStage::Prelaunch => "stage.prelaunch",
        MissionStage::Launch => "stage.launch",
        MissionStage::Orbit => "stage.orbit",
        MissionStage::TLI => "stage.tli",
        MissionStage::Transit => "stage.transit",
        MissionStage::LunarFlyby => "stage.lunar_flyby",
        MissionStage::Reentry => "stage.reentry",
        MissionStage::Splashdown => "stage.splashdown",
    }
}

} // verus!
