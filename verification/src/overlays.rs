//! Pause, help and debug overlays, and the debug jumps between stages.
use vstd::prelude::*;

use crate::states::{stage_at, stage_index, MissionStage};

verus! {

/// Whether the game is paused.
#[derive(Clone, Copy, Debug, PartialEq, Eq, Structural)]
pub struct Paused(pub bool);

impl Default for Paused {
    fn default() -> (p: Self)
        ensures
            !p.0,
    {
        Paused(false)
    }
}

/// What to do with the game clock.
#[derive(Clone, Copy, Debug, PartialEq, Eq, Structural)]
pub enum ClockCommand {
    Keep,
    Pause,
    Unpause,
}

/// Whether ESC may pause the game in `stage`: everywhere but while loading.
pub open spec fn pauseable(stage: MissionStage) -> bool {
    !(stage is Loading)
}

/// Law: the game can be paused in every stage but Loading, that is from the
/// prelaunch checklist on.
pub proof fn lemma_pause_from_prelaunch(stage: MissionStage)
    ensures
        pauseable(stage) <==> stage != MissionStage::Loading,
        pauseable(stage) <==> stage_index(stage) >= stage_index(MissionStage::Prelaunch),
{
}

/// Law of the debug jumps: digit `i + 1` leads to the stage at position
/// `i + 1` of the flight, so the eight digits lead to eight different stages,
/// Prelaunch to Splashdown, and never to Loading.
pub proof fn lemma_jump_targets(i: int, j: int)
    requires
        0 <= i < 8,
        0 <= j < 8,
    ensures
        stage_index(stage_at(i + 1)) == i + 1,
        stage_at(i + 1) != MissionStage::Loading,
        i != j ==> stage_at(i + 1) != stage_at(j + 1),
{
}

/// Whether ESC may pause the game in `stage`.
pub fn is_pauseable(stage: MissionStage) -> (r: bool)
    ensures
        r == pauseable(stage),
        r == (stage != MissionStage::Loading),
{
    match stage {
        MissionStage::Loading => false,
        _ => true,
    }
}

/// Handles ESC in `stage`: toggles the pause where pausing is allowed; where
/// it is not, a pause left over from an earlier stage is lifted. Returns what
/// to do with the game clock.
pub fn toggle_pause(paused: &mut Paused, stage: MissionStage, escape_pressed: bool) -> (cmd:
    ClockCommand)
    ensures
        !pauseable(stage) ==> {
            &&& !final(paused).0
            &&& cmd == if old(paused).0 {
                ClockCommand::Unpause
            } else {
                ClockCommand::Keep
            }
        },
        pauseable(stage) && escape_pressed ==> {
            &&& final(paused).0 == !old(paused).0
            &&& cmd == if final(paused).0 {
                ClockCommand::Pause
            } else {
                ClockCommand::Unpause
            }
        },
        pauseable(stage) && !escape_pressed ==> {
            &&& *final(paused) == *old(paused)
            &&& cmd == ClockCommand::Keep
        },
{
    if !is_pauseable(stage) {
        if paused.0 {
            paused.0 = false;
            return ClockCommand::Unpause;
        }
        return ClockCommand::Keep;
    }
    if escape_pressed {
        paused.0 = !paused.0;
        if paused.0 {
            ClockCommand::Pause
        } else {
            ClockCommand::Unpause
        }
    } else {
        ClockCommand::Keep
    }
}

/// Resumes from the pause menu.
pub fn resume(paused: &mut Paused) -> (cmd: ClockCommand)
    ensures
        !final(paused).0,
        cmd == ClockCommand::Unpause,
{
    paused.0 = false;
    ClockCommand::Unpause
}

/// The key reference overlay (F1).
#[derive(Clone, Copy, Debug, PartialEq, Eq, Structural)]
pub struct HelpOverlay {
    pub visible: bool,
}

impl Default for HelpOverlay {
    fn default() -> (h: Self)
        ensures
            !h.visible,
    {
        HelpOverlay { visible: false }
    }
}

impl HelpOverlay {
    /// F1 shows or hides the overlay; ESC closes it (without touching the
    /// pause).
    pub fn handle_keys(&mut self, f1_pressed: bool, escape_pressed: bool)
        ensures
            final(self).visible == ((if f1_pressed {
                !old(self).visible
            } else {
                old(self).visible
            }) && !escape_pressed),
    {
        if f1_pressed {
            self.visible = !self.visible;
        }
        if self.visible && escape_pressed {
            self.visible = false;
        }
    }
}

/// The debug overlay (F12).
#[derive(Clone, Copy, Debug, PartialEq, Eq, Structural)]
pub struct DebugOverlay {
    pub visible: bool,
}

impl Default for DebugOverlay {
    fn default() -> (d: Self)
        ensures
            !d.visible,
    {
        DebugOverlay { visible: false }
    }
}

impl DebugOverlay {
    /// F12 shows or hides the overlay.
    pub fn handle_key(&mut self, f12_pressed: bool)
        ensures
            final(self).visible == (old(self).visible != f12_pressed),
    {
        if f12_pressed {
            self.visible = !self.visible;
        }
    }
}

/// Debug jump: with Ctrl held, digit `i + 1` (1..8) jumps to the stage at
/// position `i + 1` of the flight (Prelaunch .. Splashdown); when several
/// digits are pressed at once the lowest wins.
pub fn debug_jump_target(ctrl_held: bool, digits_pressed: [bool; 8]) -> (r: Option<MissionStage>)
    ensures
        !ctrl_held ==> r is None,
        ctrl_held && (forall|i: int| 0 <= i < 8 ==> !digits_pressed@[i]) ==> r is None,
        ctrl_held ==> forall|i: int|
            0 <= i < 8 && digits_pressed@[i] && (forall|j: int| 0 <= j < i ==> !digits_pressed@[j])
                ==> r == Some(stage_at(i + 1)),
{
    if !ctrl_held {
        return None;
    }
    let mut i: usize = 0;
    while i < 8
        invariant
            ctrl_held,
            i <= 8,
            forall|j: int| 0 <= j < i ==> !digits_pressed@[j],
        decreases 8 - i,
    {
        if digits_pressed[i] {
            let stage = match i {
                0 => MissionStage::Prelaunch,
                1 => MissionStage::Launch,
                2 => MissionStage::Orbit,
                3 => MissionStage::TLI,
                4 => MissionStage::Transit,
                5 => MissionStage::LunarFlyby,
                6 => MissionStage::Reentry,
                _ => MissionStage::Splashdown,
            };
            return Some(stage);
        }
        i = i + 1;
    }
    None
}

} // verus!
