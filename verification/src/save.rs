//! The save slot: which mission stage was last reached, and when.
use vstd::prelude::*;

use crate::states::{stage_index, MissionStage};

verus! {

/// The part of the saved progress that decides whether a flight can be
/// continued: the stage last entered and the time of the save (Unix seconds;
/// 0 means never saved).
#[derive(Clone, Copy, Debug, PartialEq, Eq, Structural)]
pub struct SaveSlot {
    pub mission_stage: MissionStage,
    pub timestamp_unix: u64,
}

impl Default for SaveSlot {
    fn default() -> (s: Self)
        ensures
            s.mission_stage == MissionStage::Prelaunch,
            s.timestamp_unix == 0,
    {
        SaveSlot { mission_stage: MissionStage::Prelaunch, timestamp_unix: 0 }
    }
}

/// A slot holds progress when it was written at some time and names a stage
/// past the prelaunch checklist.
pub open spec fn progress_in(slot: SaveSlot) -> bool {
    slot.timestamp_unix > 0 && !(slot.mission_stage is Loading || slot.mission_stage is Prelaunch)
}

/// Whether the game saves on entering `stage`: on every stage of the mission,
/// not while assets load.
pub open spec fn saves_on_enter(stage: MissionStage) -> bool {
    !(stage is Loading)
}

/// Law: the game saves on entering every stage except Loading: every stage of
/// the mission, from Prelaunch to Splashdown, is saved on entry, so that
/// "Continue" resumes the stage last entered.
pub proof fn lemma_autosave_every_stage(stage: MissionStage)
    ensures
        saves_on_enter(stage) <==> stage != MissionStage::Loading,
        saves_on_enter(stage) <==> stage_index(stage) >= stage_index(MissionStage::Prelaunch),
{
}

/// Whether the game saves on entering `stage`.
pub fn autosaves_on_enter(stage: MissionStage) -> (r: bool)
    ensures
        r == saves_on_enter(stage),
        r == (stage != MissionStage::Loading),
{
    match stage {
        MissionStage::Loading => false,
        _ => true,
    }
}

impl SaveSlot {
    /// Whether there is saved progress past Prelaunch ("Continue" is offered).
    pub fn has_progress(&self) -> (r: bool)
        ensures
            r == progress_in(*self),
            r == (self.timestamp_unix > 0 && self.mission_stage != MissionStage::Loading
                && self.mission_stage != MissionStage::Prelaunch),
    {
        self.timestamp_unix > 0 && match self.mission_stage {
            MissionStage::Loading | MissionStage::Prelaunch => false,
            _ => true,
        }
    }

    /// Records entering `stage` at Unix time `timestamp_unix`.
    pub fn record(&mut self, stage: MissionStage, timestamp_unix: u64)
        ensures
            final(self).mission_stage == stage,
            final(self).timestamp_unix == timestamp_unix,
    {
        self.mission_stage = stage;
        self.timestamp_unix = timestamp_unix;
    }
}

/// Law: a fresh slot offers no progress, and a slot offers progress right
/// after a save exactly when the save had a time and a stage past Prelaunch.
pub proof fn lemma_progress_after_record(stage: MissionStage, t: u64)
    ensures
        !progress_in(SaveSlot { mission_stage: MissionStage::Prelaunch, timestamp_unix: 0 }),
        progress_in(SaveSlot { mission_stage: stage, timestamp_unix: t }) == (t > 0 && !(
        stage is Loading || stage is Prelaunch)),
{
}

/// The player's request to continue the saved flight ("Continue" pressed).
#[derive(Clone, Copy, Debug, PartialEq, Eq, Structural)]
pub struct LoadRequested(pub bool);

impl Default for LoadRequested {
    fn default() -> (r: Self)
        ensures
            !r.0,
    {
        LoadRequested(false)
    }
}

impl LoadRequested {
    /// Takes a pending request: returns whether one was pending and clears it,
    /// so that the saved flight is restored once per press.
    pub fn take(&mut self) -> (was: bool)
        ensures
            was == old(self).0,
            !final(self).0,
    {
        let was = self.0;
        self.0 = false;
        was
    }
}

} // verus!
