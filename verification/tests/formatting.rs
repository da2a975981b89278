use artemis::clock::{fmt_clock, mission_clock_runs};
use artemis::replay::{milestone_names, FlightRecord, PhaseRecord};
use artemis::states::{stage_key, MissionStage};

fn record_at(time_s: u64) -> PhaseRecord {
    PhaseRecord { name_ru: "Старт", name_en: "Launch", time_s, detail: String::new() }
}

#[test]
fn fmt_time_under_an_hour() {
    assert_eq!(record_at(0).fmt_time(), "T+00:00");
    assert_eq!(record_at(510).fmt_time(), "T+08:30");
    assert_eq!(record_at(3599).fmt_time(), "T+59:59");
}

#[test]
fn fmt_time_with_hours() {
    assert_eq!(record_at(3600).fmt_time(), "T+1:00:00");
    assert_eq!(record_at(3723).fmt_time(), "T+1:02:03");
    assert_eq!(record_at(36000 + 61).fmt_time(), "T+10:01:01");
    assert_eq!(record_at(864_000).fmt_time(), "T+240:00:00");
}

#[test]
fn fmt_time_matches_std_format() {
    for t in [0u64, 5, 59, 60, 61, 3599, 3600, 3661, 86399, 123_456_789, u64::MAX] {
        let h = t / 3600;
        let m = (t / 60) % 60;
        let s = t % 60;
        let expected = if h > 0 {
            format!("T+{h}:{m:02}:{s:02}")
        } else {
            format!("T+{m:02}:{s:02}")
        };
        assert_eq!(record_at(t).fmt_time(), expected);
    }
}

#[test]
fn clock_pads_every_field() {
    assert_eq!(fmt_clock(0), "00:00:00");
    assert_eq!(fmt_clock(3725), "01:02:05");
    assert_eq!(fmt_clock(360_000), "100:00:00");
    for t in [1u64, 59, 600, 7199, 86_400, u64::MAX] {
        let (h, m, s) = (t / 3600, (t / 60) % 60, t % 60);
        assert_eq!(fmt_clock(t), format!("{h:02}:{m:02}:{s:02}"));
    }
}

#[test]
fn clock_runs_after_prelaunch() {
    assert!(!mission_clock_runs(MissionStage::Loading));
    assert!(!mission_clock_runs(MissionStage::Prelaunch));
    assert!(mission_clock_runs(MissionStage::Launch));
    assert!(mission_clock_runs(MissionStage::Splashdown));
}

#[test]
fn hud_stage_keys() {
    assert_eq!(stage_key(MissionStage::Loading), "stage.loading");
    assert_eq!(stage_key(MissionStage::TLI), "stage.tli");
    assert_eq!(stage_key(MissionStage::LunarFlyby), "stage.lunar_flyby");
    assert_eq!(stage_key(MissionStage::Splashdown), "stage.splashdown");
    assert_eq!(MissionStage::default(), MissionStage::Loading);
}

#[test]
fn flight_log_records_milestones_in_order() {
    let mut log = FlightRecord::default();
    log.on_enter(MissionStage::Prelaunch, 0, String::new());
    assert!(log.phases.is_empty());
    log.on_enter(MissionStage::Launch, 0, String::new());
    log.on_enter(MissionStage::Orbit, 510, String::new());
    log.on_enter(MissionStage::TLI, 600, String::from("ignored"));
    log.on_enter(MissionStage::Transit, 1700, String::from("TLI 98.5%"));
    assert_eq!(log.phases.len(), 3);
    assert_eq!(log.phases[0].name_en, "Launch");
    assert_eq!(log.phases[1].name_ru, "Орбита");
    assert_eq!(log.phases[1].time_s, 510);
    assert_eq!(log.phases[2].name_en, "Trans-Lunar Transit");
    assert_eq!(log.phases[2].detail, "TLI 98.5%");
    log.on_enter(MissionStage::Prelaunch, 0, String::new());
    assert!(log.phases.is_empty());
}

#[test]
fn milestone_names_of_each_stage() {
    assert_eq!(milestone_names(MissionStage::LunarFlyby), ("Облёт Луны", "Lunar Flyby"));
    assert_eq!(milestone_names(MissionStage::Reentry), ("Вход в атмосферу", "Reentry"));
    assert_eq!(milestone_names(MissionStage::Splashdown), ("Приводнение", "Splashdown"));
}
