//! Which sounds the mission events trigger.
use vstd::prelude::*;

use crate::events::MissionEvent;

verus! {

/// A one-shot or looping sound of the mission.
#[derive(Clone, Copy, Debug, PartialEq, Eq, Structural)]
pub enum SoundCue {
    LaunchEngines,
    ExplosionMedium,
    AbortAlarm,
    HyperdriveIn,
    HyperdriveLoop,
    HyperdriveOut,
    Afterburner,
    Landing,
}

/// What the audio does in answer to an event.
#[derive(Clone, Copy, Debug, PartialEq, Eq, Structural)]
pub enum AudioAction {
    Play(SoundCue),
    /// Arm the timer that plays the takeoff roar a few seconds after ignition.
    StartTakeoffDelay,
    /// Stop the looping burn sound.
    StopHyperdriveLoop,
}

/// The audio actions answering `event`, in order.
pub open spec fn actions_for(event: MissionEvent) -> Seq<AudioAction> {
    match event {
        MissionEvent::Liftoff => seq![
            AudioAction::Play(SoundCue::LaunchEngines),
            AudioAction::StartTakeoffDelay,
        ],
        MissionEvent::SrbSep => seq![AudioAction::Play(SoundCue::ExplosionMedium)],
        MissionEvent::Meco => Seq::empty(),
        MissionEvent::Abort(_) => seq![AudioAction::Play(SoundCue::AbortAlarm)],
        MissionEvent::TliBurnStart => seq![
            AudioAction::Play(SoundCue::HyperdriveIn),
            AudioAction::Play(SoundCue::HyperdriveLoop),
        ],
        MissionEvent::TliBurnEnd => seq![
            AudioAction::StopHyperdriveLoop,
            AudioAction::Play(SoundCue::HyperdriveOut),
        ],
        MissionEvent::PerilunePassage => Seq::empty(),
        MissionEvent::AtmosphereEntry => seq![AudioAction::Play(SoundCue::Afterburner)],
        MissionEvent::Splashdown => seq![AudioAction::Play(SoundCue::Landing)],
    }
}

/// Law of the mission sounds: the abort alarm sounds exactly on an abort; the
/// burn loop starts exactly when the TLI burn starts and is stopped exactly
/// when it ends; the delayed takeoff roar is armed exactly at liftoff; the
/// landing sound plays exactly at splashdown; and every event gives at most
/// two actions.
pub proof fn lemma_sound_cues(event: MissionEvent)
    ensures
        actions_for(event).contains(AudioAction::Play(SoundCue::AbortAlarm)) <==> event is Abort,
        actions_for(event).contains(AudioAction::Play(SoundCue::HyperdriveLoop))
            <==> event is TliBurnStart,
        actions_for(event).contains(AudioAction::StopHyperdriveLoop) <==> event is TliBurnEnd,
        actions_for(event).contains(AudioAction::StartTakeoffDelay) <==> event is Liftoff,
        actions_for(event).contains(AudioAction::Play(SoundCue::Landing)) <==> event is Splashdown,
        actions_for(event).len() <= 2,
{
    let a = actions_for(event);
    match event {
        MissionEvent::Abort(_) => {
            assert(a[0] == AudioAction::Play(SoundCue::AbortAlarm));
        },
        MissionEvent::Splashdown => {
            assert(a[0] == AudioAction::Play(SoundCue::Landing));
        },
        _ => {
            if a.len() > 0 {
                assert(a[0] == a[0]);
            }
            if a.len() > 1 {
                assert(a[1] == a[1]);
            }
        },
    }
}

/// The audio actions answering `event`, in order.
pub fn audio_actions(event: &MissionEvent) -> (r: Vec<AudioAction>)
    ensures
        r@ == actions_for(*event),
{
    let mut r: Vec<AudioAction> = Vec::new();
    match event {
        MissionEvent::Liftoff => {
            r.push(AudioAction::Play(SoundCue::LaunchEngines));
            r.push(AudioAction::StartTakeoffDelay);
        },
        MissionEvent::SrbSep => {
            r.push(AudioAction::Play(SoundCue::ExplosionMedium));
        },
        MissionEvent::Meco => {},
        MissionEvent::Abort(_) => {
            r.push(AudioAction::Play(SoundCue::AbortAlarm));
        },
        MissionEvent::TliBurnStart => {
            r.push(AudioAction::Play(SoundCue::HyperdriveIn));
            r.push(AudioAction::Play(SoundCue::HyperdriveLoop));
        },
        MissionEvent::TliBurnEnd => {
            r.push(AudioAction::StopHyperdriveLoop);
            r.push(AudioAction::Play(SoundCue::HyperdriveOut));
        },
        MissionEvent::PerilunePassage => {},
        MissionEvent::AtmosphereEntry => {
            r.push(AudioAction::Play(SoundCue::Afterburner));
        },
        MissionEvent::Splashdown => {
            r.push(AudioAction::Play(SoundCue::Landing));
        },
    }
    assert(r@ =~= actions_for(*event));
    r
}

} // verus!
