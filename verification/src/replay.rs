//! The flight log shown on the splashdown screen: one record per mission
//! milestone, with the mission time at which it was reached.
use vstd::prelude::*;
use vstd::string::StringExecFns;

use crate::states::{stage_index, MissionStage};
use crate::text::{append_decimal, append_two_digits, decimal, two_digits};

verus! {

/// One milestone of the flight.
#[derive(Clone, Debug)]
pub struct PhaseRecord {
    pub name_ru: &'static str,
    pub name_en: &'static str,
    /// Mission time (T+) at which the milestone was reached, in whole seconds.
    pub time_s: u64,
    /// A short result shown beside the milestone (may be empty).
    pub detail: String,
}

/// `T+H:MM:SS` once an hour has passed, `T+MM:SS` before that.
pub open spec fn time_text(time_s: nat) -> Seq<char> {
    let h = time_s / 3600;
    let m = (time_s / 60) % 60;
    let s = time_s % 60;
    if h > 0 {
        seq!['T', '+'] + decimal(h) + seq![':'] + two_digits(m) + seq![':'] + two_digits(s)
    } else {
        seq!['T', '+'] + two_digits(m) + seq![':'] + two_digits(s)
    }
}

impl PhaseRecord {
    /// The milestone's mission time as text, e.g. `T+08:30` or `T+1:02:03`.
    pub fn fmt_time(&self) -> (r: String)
        ensures
            r@ == time_text(self.time_s as nat),
    {
        let h = self.time_s / 3600;
        let m = (self.time_s / 60) % 60;
        let s = self.time_s % 60;
        let mut out = String::new();
        proof {
            reveal_strlit("T+");
            reveal_strlit(":");
        }
        out.append("T+");
        if h > 0 {
            append_decimal(&mut out, h);
            out.append(":");
        }
        append_two_digits(&mut out, m);
        out.append(":");
        append_two_digits(&mut out, s);
        assert(out@ =~= time_text(self.time_s as nat));
        out
    }
}

/// Whether entering `stage` adds a milestone to the flight log.
pub open spec fn is_milestone(stage: MissionStage) -> bool {
    ||| stage is Launch
    ||| stage is Orbit
    ||| stage is Transit
    ||| stage is LunarFlyby
    ||| stage is Reentry
    ||| stage is Splashdown
}

/// Russian name of the milestone reached by entering `stage`.
pub open spec fn milestone_name_ru(stage: MissionStage) -> Seq<char> {
    match stage {
        MissionStage::Launch => "Старт"@,
        MissionStage::Orbit => "Орбита"@,
        MissionStage::Transit => "Транзит к Луне"@,
        MissionStage::LunarFlyby => "Облёт Луны"@,
        MissionStage::Reentry => "Вход в атмосферу"@,
        _ => "Приводнение"@,
    }
}

/// English name of the milestone reached by entering `stage`.
pub open spec fn milestone_name_en(stage: MissionStage) -> Seq<char> {
    match stage {
        MissionStage::Launch => "Launch"@,
        MissionStage::Orbit => "Orbit"@,
        MissionStage::Transit => "Trans-Lunar Transit"@,
        MissionStage::LunarFlyby => "Lunar Flyby"@,
        MissionStage::Reentry => "Reentry"@,
        _ => "Splashdown"@,
    }
}

/// The names (Russian, English) of the milestone reached by entering `stage`.
pub fn milestone_names(stage: MissionStage) -> (r: (&'static str, &'static str))
    requires
        is_milestone(stage),
    ensures
        r.0@ == milestone_name_ru(stage),
        r.1@ == milestone_name_en(stage),
{
    match stage {
        MissionStage::Launch => ("Старт", "Launch"),
        MissionStage::Orbit => ("Орбита", "Orbit"),
        MissionStage::Transit => ("Транзит к Луне", "Trans-Lunar Transit"),
        MissionStage::LunarFlyby => ("Облёт Луны", "Lunar Flyby"),
        MissionStage::Reentry => ("Вход в атмосферу", "Reentry"),
        _ => ("Приводнение", "Splashdown"),
    }
}

/// Law of the flight log: the milestones are exactly the stages from Launch
/// on, except the TLI burn (Launch, Orbit, Transit, LunarFlyby, Reentry,
/// Splashdown); Loading, Prelaunch and TLI add nothing.
pub proof fn lemma_milestone_stages(stage: MissionStage)
    ensures
        is_milestone(stage) <==> (stage_index(stage) >= stage_index(MissionStage::Launch) && stage
            != MissionStage::TLI),
        is_milestone(stage) <==> !(stage is Loading || stage is Prelaunch || stage is TLI),
{
}

/// Law: different milestones carry different names, in both languages, and
/// no milestone name is empty; so each milestone reached shows up in the log
/// under its own name.
pub proof fn lemma_milestone_names_distinct(a: MissionStage, b: MissionStage)
    requires
        is_milestone(a),
        is_milestone(b),
        a != b,
    ensures
        milestone_name_en(a) != milestone_name_en(b),
        milestone_name_ru(a) != milestone_name_ru(b),
        milestone_name_en(a).len() > 0,
        milestone_name_ru(a).len() > 0,
{
    reveal_strlit("Launch");
    reveal_strlit("Orbit");
    reveal_strlit("Trans-Lunar Transit");
    reveal_strlit("Lunar Flyby");
    reveal_strlit("Reentry");
    reveal_strlit("Splashdown");
    reveal_strlit("Старт");
    reveal_strlit("Орбита");
    reveal_strlit("Транзит к Луне");
    reveal_strlit("Облёт Луны");
    reveal_strlit("Вход в атмосферу");
    reveal_strlit("Приводнение");
    assert("Launch"@.len() == 6);
    assert("Orbit"@.len() == 5);
    assert("Trans-Lunar Transit"@.len() == 19);
    assert("Lunar Flyby"@.len() == 11);
    assert("Reentry"@.len() == 7);
    assert("Splashdown"@.len() == 10);
    assert("Старт"@.len() == 5);
    assert("Орбита"@.len() == 6);
    assert("Транзит к Луне"@.len() == 14);
    assert("Облёт Луны"@.len() == 10);
    assert("Вход в атмосферу"@.len() == 16);
    assert("Приводнение"@.len() == 11);
}

/// Law: entering the reentry stage appends one record, named "Вход в
/// атмосферу" / "Reentry", with the mission time and detail given.
pub proof fn lemma_reentry_is_logged(time_s: u64, detail: String)
    ensures
        is_milestone(MissionStage::Reentry),
        milestone_name_ru(MissionStage::Reentry) == "Вход в атмосферу"@,
        milestone_name_en(MissionStage::Reentry) == "Reentry"@,
        records_milestone(
            PhaseRecord { name_ru: "Вход в атмосферу", name_en: "Reentry", time_s, detail },
            MissionStage::Reentry,
            time_s,
            detail,
        ),
{
}

/// The log of milestones of the current flight, oldest first.
pub struct FlightRecord {
    pub phases: Vec<PhaseRecord>,
}

impl Default for FlightRecord {
    fn default() -> (r: Self)
        ensures
            r.phases@.len() == 0,
    {
        FlightRecord { phases: Vec::new() }
    }
}

/// `rec` is the milestone record for entering `stage` at `time_s` with `detail`.
pub open spec fn records_milestone(
    rec: PhaseRecord,
    stage: MissionStage,
    time_s: u64,
    detail: String,
) -> bool {
    &&& rec.name_ru@ == milestone_name_ru(stage)
    &&& rec.name_en@ == milestone_name_en(stage)
    &&& rec.time_s == time_s
    &&& rec.detail == detail
}

impl FlightRecord {
    /// Updates the log on entering `stage` at mission time `time_s`: a new
    /// flight (Prelaunch) clears it, a milestone stage appends its record with
    /// `detail`, any other stage leaves it as it is.
    pub fn on_enter(&mut self, stage: MissionStage, time_s: u64, detail: String)
        ensures
            stage is Prelaunch ==> final(self).phases@.len() == 0,
            is_milestone(stage) ==> {
                &&& final(self).phases@.len() == old(self).phases@.len() + 1
                &&& final(self).phases@.drop_last() == old(self).phases@
                &&& records_milestone(final(self).phases@.last(), stage, time_s, detail)
            },
            !(stage is Prelaunch) && !is_milestone(stage) ==> final(self).phases@ == old(self).phases@,
    {
        match stage {
            MissionStage::Prelaunch => {
                self.phases.clear();
            },
            MissionStage::Loading | MissionStage::TLI => {},
            _ => {
                let (name_ru, name_en) = milestone_names(stage);
                self.phases.push(PhaseRecord { name_ru, name_en, time_s, detail });
                assert(self.phases@.drop_last() =~= old(self).phases@);
            },
        }
    }
}

} // verus!
