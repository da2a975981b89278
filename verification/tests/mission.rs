use std::collections::VecDeque;

use artemis::audio::{audio_actions, AudioAction, SoundCue};
use artemis::audio::AudioAction::{Play, StartTakeoffDelay, StopHyperdriveLoop};
use artemis::config::Difficulty::{Realistic, Story};
use artemis::checklist::{OrbitChecklist, PreflightChecklist};
use artemis::config::Difficulty;
use artemis::events::{MissionEvent, MissionFailed};
use artemis::flight::{
    engine_cutoff, engines_burning, scheduled_meco, srb_separation, throttle_adjustable,
    FlightPhase,
};
use artemis::flyby::{FlybyPhase, FlybyProgress};
use artemis::reentry::{
    abort_reason, heat_shield_failure, reentry_verdict, ReentryPhase, ReentryVerdict,
};
use artemis::save::{autosaves_on_enter, LoadRequested, SaveSlot};
use artemis::states::MissionStage;
use artemis::tli::TliBurnState;
use artemis::trail::{push_trail, TRAIL_MAX};

#[test]
fn preflight_go_needs_every_item() {
    let mut c = PreflightChecklist::default();
    assert!(!c.all_ok());
    for i in 0..10 {
        c.states[i] = true;
    }
    assert!(c.all_ok());
    c.states[9] = false;
    assert!(!c.all_ok());
}

#[test]
fn orbit_go_needs_every_item() {
    let mut c = OrbitChecklist::default();
    assert!(!c.all_ok());
    c.states = [true; 12];
    assert!(c.all_ok());
    c.states[0] = false;
    assert!(!c.all_ok());
}

#[test]
fn save_slot_progress() {
    let mut slot = SaveSlot::default();
    assert_eq!(slot.mission_stage, MissionStage::Prelaunch);
    assert!(!slot.has_progress());
    slot.record(MissionStage::Transit, 1_775_000_000);
    assert!(slot.has_progress());
    slot.record(MissionStage::Transit, 0);
    assert!(!slot.has_progress());
    slot.record(MissionStage::Prelaunch, 1_775_000_000);
    assert!(!slot.has_progress());
    slot.record(MissionStage::Loading, 1_775_000_000);
    assert!(!slot.has_progress());
    assert!(!autosaves_on_enter(MissionStage::Loading));
    assert!(autosaves_on_enter(MissionStage::Splashdown));
}

#[test]
fn load_request_is_taken_once() {
    let mut req = LoadRequested::default();
    assert!(!req.take());
    req.0 = true;
    assert!(req.take());
    assert!(!req.take());
}

#[test]
fn first_abort_reason_wins() {
    let mut failed = MissionFailed::default();
    failed.observe(&MissionEvent::Liftoff);
    assert_eq!(failed.reason, None);
    failed.observe(&MissionEvent::Abort(String::from("pitch deviation")));
    failed.observe(&MissionEvent::Abort(String::from("перегрев теплового щита")));
    failed.observe(&MissionEvent::Splashdown);
    assert_eq!(failed.reason.as_deref(), Some("pitch deviation"));
    failed.clear();
    assert_eq!(failed.reason, None);
}

#[test]
fn flight_phases_move_forward() {
    let mut p = FlightPhase::BoosterPhase;
    assert!(!throttle_adjustable(p));
    assert!(!scheduled_meco(&mut p, true));
    assert!(!srb_separation(&mut p, false));
    assert!(srb_separation(&mut p, true));
    assert_eq!(p, FlightPhase::CoreOnly);
    assert!(throttle_adjustable(p));
    assert!(!srb_separation(&mut p, true));
    assert!(scheduled_meco(&mut p, true));
    assert_eq!(p, FlightPhase::Coast);
    assert!(!engines_burning(p));
    assert!(!engine_cutoff(&mut p));
    let mut q = FlightPhase::BoosterPhase;
    assert!(engines_burning(q));
    assert!(engine_cutoff(&mut q));
    assert_eq!(q, FlightPhase::Coast);
}

#[test]
fn tli_burn_sequence() {
    let mut s = TliBurnState::default();
    assert!(!s.finish(true, true, true));
    assert!(!s.ignite(false));
    assert!(s.ignite(true));
    assert!(s.is_burning());
    assert!(!s.ignite(true));
    assert!(!s.finish(false, false, false));
    assert!(s.finish(false, true, false));
    assert_eq!(s, TliBurnState::Completed);
    assert!(!s.ignite(true));
    assert!(!s.finish(true, false, false));
}

#[test]
fn flyby_sequence() {
    let mut f = FlybyProgress::default();
    assert_eq!(f.phase, FlybyPhase::Approach);
    f.note_motion(false);
    f.note_perilune();
    assert_eq!(f, FlybyProgress::default());
    f.note_motion(true);
    assert_eq!(f.phase, FlybyPhase::Perilune);
    assert!(!f.awaiting_departure());
    f.note_perilune();
    assert!(f.perilune_fired);
    assert!(f.awaiting_departure());
    assert!(!f.depart(false));
    assert!(!f.departure_complete(true));
    assert!(f.depart(true));
    assert_eq!(f.phase, FlybyPhase::Departure);
    assert!(!f.depart(true));
    assert!(!f.departure_complete(false));
    assert!(f.departure_complete(true));
    assert!(f.departure_started);
    assert!(!f.awaiting_departure());
    f.note_motion(true);
    assert_eq!(f.phase, FlybyPhase::Departure);
}

#[test]
fn reentry_phases() {
    let mut p = ReentryPhase::default();
    assert!(!p.in_atmosphere());
    assert!(!p.after_altitude_check(true));
    assert_eq!(p, ReentryPhase::Approach);
    assert!(!p.commit(false));
    assert!(p.commit(true));
    assert!(p.in_atmosphere());
    assert!(!p.after_altitude_check(false));
    assert!(!p.after_altitude_check(true));
    assert_eq!(p, ReentryPhase::Descent);
    assert!(p.after_altitude_check(true));
    assert_eq!(p, ReentryPhase::Parachutes);
    assert!(!p.after_altitude_check(true));
    assert!(!p.commit(true));
}

#[test]
fn reentry_verdicts() {
    let e = ReentryPhase::Entry;
    assert_eq!(reentry_verdict(e, false, true, false, Realistic, false), ReentryVerdict::AbortTooShallow);
    assert_eq!(reentry_verdict(e, false, false, true, Realistic, false), ReentryVerdict::AbortTooSteep);
    assert_eq!(reentry_verdict(e, false, true, true, Realistic, false), ReentryVerdict::AbortTooShallow);
    assert_eq!(reentry_verdict(e, false, true, false, Story, false), ReentryVerdict::Continue);
    assert_eq!(reentry_verdict(e, true, true, false, Realistic, false), ReentryVerdict::Continue);
    assert_eq!(reentry_verdict(e, false, false, false, Realistic, true), ReentryVerdict::Continue);
    let p = ReentryPhase::Parachutes;
    assert_eq!(reentry_verdict(p, false, false, false, Story, true), ReentryVerdict::Splashdown);
    assert_eq!(reentry_verdict(p, true, true, true, Realistic, true), ReentryVerdict::Splashdown);
    assert_eq!(reentry_verdict(p, false, false, false, Story, false), ReentryVerdict::Continue);
    assert_eq!(
        abort_reason(ReentryVerdict::AbortTooShallow),
        Some("слишком малый угол входа — скользящий отскок")
    );
    assert_eq!(abort_reason(ReentryVerdict::AbortTooSteep), Some("слишком крутой угол входа — перегрев"));
    assert_eq!(abort_reason(ReentryVerdict::Splashdown), None);
}

#[test]
fn heat_shield_fails_only_on_realistic_once() {
    assert!(heat_shield_failure(true, Difficulty::Realistic, false));
    assert!(!heat_shield_failure(true, Difficulty::Realistic, true));
    assert!(!heat_shield_failure(true, Difficulty::Story, false));
    assert!(!heat_shield_failure(false, Difficulty::Realistic, false));
}

#[test]
fn trail_keeps_the_newest_points() {
    let mut trail: VecDeque<u32> = VecDeque::new();
    for i in 0..(TRAIL_MAX as u32 + 20) {
        push_trail(&mut trail, i);
        assert!(trail.len() <= TRAIL_MAX);
        assert_eq!(*trail.back().unwrap(), i);
    }
    assert_eq!(trail.len(), TRAIL_MAX);
    assert_eq!(*trail.front().unwrap(), 20);
}

#[test]
fn audio_answers_each_event() {
    assert_eq!(
        audio_actions(&MissionEvent::Liftoff),
        vec![Play(SoundCue::LaunchEngines), StartTakeoffDelay]
    );
    assert_eq!(audio_actions(&MissionEvent::SrbSep), vec![Play(SoundCue::ExplosionMedium)]);
    assert!(audio_actions(&MissionEvent::Meco).is_empty());
    assert_eq!(
        audio_actions(&MissionEvent::Abort(String::from("x"))),
        vec![Play(SoundCue::AbortAlarm)]
    );
    assert_eq!(
        audio_actions(&MissionEvent::TliBurnStart),
        vec![Play(SoundCue::HyperdriveIn), Play(SoundCue::HyperdriveLoop)]
    );
    assert_eq!(
        audio_actions(&MissionEvent::TliBurnEnd),
        vec![StopHyperdriveLoop, Play(SoundCue::HyperdriveOut)]
    );
    assert!(audio_actions(&MissionEvent::PerilunePassage).is_empty());
    assert_eq!(audio_actions(&MissionEvent::AtmosphereEntry), vec![Play(SoundCue::Afterburner)]);
    assert_eq!(audio_actions(&MissionEvent::Splashdown), vec![Play(SoundCue::Landing)]);
}
