use artemis::camera::{follows_vehicle, switch_camera_mode, uses_pan_orbit, CameraMode};
use artemis::overlays::{
    debug_jump_target, is_pauseable, resume, toggle_pause, ClockCommand, DebugOverlay,
    HelpOverlay, Paused,
};
use artemis::states::MissionStage;

#[test]
fn escape_toggles_pause_in_flight() {
    let mut p = Paused::default();
    assert_eq!(toggle_pause(&mut p, MissionStage::Launch, true), ClockCommand::Pause);
    assert!(p.0);
    assert_eq!(toggle_pause(&mut p, MissionStage::Launch, false), ClockCommand::Keep);
    assert!(p.0);
    assert_eq!(toggle_pause(&mut p, MissionStage::Launch, true), ClockCommand::Unpause);
    assert!(!p.0);
}

#[test]
fn loading_lifts_a_pause_and_ignores_escape() {
    assert!(!is_pauseable(MissionStage::Loading));
    assert!(is_pauseable(MissionStage::Prelaunch));
    let mut p = Paused(true);
    assert_eq!(toggle_pause(&mut p, MissionStage::Loading, false), ClockCommand::Unpause);
    assert!(!p.0);
    assert_eq!(toggle_pause(&mut p, MissionStage::Loading, true), ClockCommand::Keep);
    assert!(!p.0);
}

#[test]
fn pause_menu_resume() {
    let mut p = Paused(true);
    assert_eq!(resume(&mut p), ClockCommand::Unpause);
    assert!(!p.0);
}

#[test]
fn help_overlay_keys() {
    let mut h = HelpOverlay::default();
    h.handle_keys(true, false);
    assert!(h.visible);
    h.handle_keys(false, true);
    assert!(!h.visible);
    h.handle_keys(true, true);
    assert!(!h.visible);
    h.handle_keys(false, true);
    assert!(!h.visible);
}

#[test]
fn debug_overlay_key() {
    let mut d = DebugOverlay::default();
    d.handle_key(true);
    assert!(d.visible);
    d.handle_key(false);
    assert!(d.visible);
    d.handle_key(true);
    assert!(!d.visible);
}

#[test]
fn debug_jumps_need_ctrl() {
    let mut digits = [false; 8];
    digits[3] = true;
    assert_eq!(debug_jump_target(false, digits), None);
    assert_eq!(debug_jump_target(true, digits), Some(MissionStage::TLI));
    digits[1] = true;
    assert_eq!(debug_jump_target(true, digits), Some(MissionStage::Launch));
    assert_eq!(debug_jump_target(true, [false; 8]), None);
    let mut last = [false; 8];
    last[7] = true;
    assert_eq!(debug_jump_target(true, last), Some(MissionStage::Splashdown));
    let mut first = [false; 8];
    first[0] = true;
    assert_eq!(debug_jump_target(true, first), Some(MissionStage::Prelaunch));
}

#[test]
fn camera_digits_select_modes() {
    let modes = [
        CameraMode::External,
        CameraMode::CockpitUp,
        CameraMode::CockpitDown,
        CameraMode::Cockpit,
        CameraMode::Chase,
        CameraMode::Free,
    ];
    for (i, m) in modes.iter().enumerate() {
        let mut d = [false; 6];
        d[i] = true;
        assert_eq!(switch_camera_mode(CameraMode::Chase, false, d), *m);
        assert_eq!(switch_camera_mode(CameraMode::Chase, true, d), CameraMode::Chase);
    }
    assert_eq!(switch_camera_mode(CameraMode::Free, false, [false; 6]), CameraMode::Free);
    // several digits at once: the highest wins
    assert_eq!(
        switch_camera_mode(CameraMode::Free, false, [true, false, false, true, false, false]),
        CameraMode::Cockpit
    );
    assert_eq!(CameraMode::default(), CameraMode::External);
}

#[test]
fn exactly_one_camera_driver() {
    for m in [
        CameraMode::Cockpit,
        CameraMode::CockpitUp,
        CameraMode::CockpitDown,
        CameraMode::Chase,
        CameraMode::External,
        CameraMode::Free,
    ] {
        assert_ne!(uses_pan_orbit(m), follows_vehicle(m));
    }
    assert!(uses_pan_orbit(CameraMode::Free));
    assert!(follows_vehicle(CameraMode::Chase));
}

#[test]
fn translation_keys_of_settings_and_flyby() {
    use_keys();
}

fn use_keys() {
    assert_eq!(artemis::config::difficulty_key(artemis::config::Difficulty::Story), "difficulty.story");
    assert_eq!(
        artemis::config::difficulty_key(artemis::config::Difficulty::Realistic),
        "difficulty.realistic"
    );
    assert_eq!(artemis::flyby::phase_key(artemis::flyby::FlybyPhase::Approach), "flyby.phase.approach");
    assert_eq!(artemis::flyby::phase_key(artemis::flyby::FlybyPhase::Perilune), "flyby.phase.perilune");
    assert_eq!(artemis::flyby::phase_key(artemis::flyby::FlybyPhase::Departure), "flyby.phase.departure");
}
