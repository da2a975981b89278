use artemis::config::{
    apply_time_keys, apply_warp_keys, warp_auto_drop, Difficulty, TimeScale, WarpLevel,
    WARP_DEFAULT_INDEX, WARP_LEVEL_COUNT,
};

#[test]
fn difficulty_defaults_to_realistic() {
    assert_eq!(Difficulty::default(), Difficulty::Realistic);
}

#[test]
fn warp_multipliers_follow_the_ladder() {
    let expected = [1u32, 5, 20, 100, 500, 2000];
    for (i, m) in expected.iter().enumerate() {
        assert_eq!(WarpLevel(i).multiplier(), *m);
    }
    assert_eq!(WarpLevel(WARP_LEVEL_COUNT + 7).multiplier(), 2000);
    assert_eq!(WarpLevel(WARP_DEFAULT_INDEX).multiplier(), 100);
    assert_eq!(WarpLevel::default(), WarpLevel(0));
}

#[test]
fn warp_increase_stops_at_top() {
    let mut w = WarpLevel(4);
    w.increase();
    assert_eq!(w, WarpLevel(5));
    w.increase();
    assert_eq!(w, WarpLevel(5));
    let mut far = WarpLevel(40);
    far.increase();
    assert_eq!(far, WarpLevel(5));
}

#[test]
fn warp_decrease_stops_at_one() {
    let mut w = WarpLevel(1);
    w.decrease();
    assert_eq!(w, WarpLevel(0));
    w.decrease();
    assert_eq!(w, WarpLevel(0));
}

#[test]
fn warp_up_then_down_round_trip() {
    for i in 0..5 {
        let mut w = WarpLevel(i);
        w.increase();
        w.decrease();
        assert_eq!(w, WarpLevel(i));
    }
    for i in 1..6 {
        let mut w = WarpLevel(i);
        w.decrease();
        w.increase();
        assert_eq!(w, WarpLevel(i));
    }
}

#[test]
fn time_scale_cycles_through_steps() {
    let mut t = TimeScale::default();
    assert_eq!(t.multiplier, 1);
    t.cycle_up();
    assert_eq!(t.multiplier, 5);
    t.cycle_up();
    assert_eq!(t.multiplier, 20);
    t.cycle_up();
    assert_eq!(t.multiplier, 20);
    t.cycle_down();
    assert_eq!(t.multiplier, 5);
    t.cycle_down();
    assert_eq!(t.multiplier, 1);
    t.cycle_down();
    assert_eq!(t.multiplier, 1);
}

#[test]
fn time_scale_off_ladder_counts_as_first_step() {
    let mut t = TimeScale { multiplier: 100 };
    t.cycle_up();
    assert_eq!(t.multiplier, 5);
    let mut t = TimeScale { multiplier: 2000 };
    t.cycle_down();
    assert_eq!(t.multiplier, 1);
}

#[test]
fn time_keys_slower_then_faster() {
    let mut t = TimeScale { multiplier: 20 };
    apply_time_keys(&mut t, true, false);
    assert_eq!(t.multiplier, 5);
    apply_time_keys(&mut t, true, true);
    assert_eq!(t.multiplier, 5);
    apply_time_keys(&mut t, false, true);
    assert_eq!(t.multiplier, 20);
    apply_time_keys(&mut t, false, false);
    assert_eq!(t.multiplier, 20);
}

#[test]
fn warp_keys_keep_time_scale_in_sync() {
    let mut w = WarpLevel(0);
    let mut t = TimeScale::default();
    apply_warp_keys(&mut w, &mut t, true, false);
    assert_eq!((w, t.multiplier), (WarpLevel(1), 5));
    apply_warp_keys(&mut w, &mut t, true, false);
    assert_eq!((w, t.multiplier), (WarpLevel(2), 20));
    apply_warp_keys(&mut w, &mut t, false, true);
    assert_eq!((w, t.multiplier), (WarpLevel(1), 5));
    apply_warp_keys(&mut w, &mut t, true, true);
    assert_eq!((w, t.multiplier), (WarpLevel(1), 5));
    let mut t2 = TimeScale { multiplier: 20 };
    apply_warp_keys(&mut w, &mut t2, false, false);
    assert_eq!(t2.multiplier, 20);
}

#[test]
fn warp_drops_near_moon_and_warns_once() {
    let mut w = WarpLevel(4);
    let mut t = TimeScale { multiplier: 500 };
    let mut notified = false;
    assert!(warp_auto_drop(&mut w, &mut t, &mut notified, true));
    assert_eq!((w, t.multiplier, notified), (WarpLevel(1), 5, true));
    // the player warps up again while still near: dropped again, no new warning
    w = WarpLevel(5);
    t.multiplier = 2000;
    assert!(!warp_auto_drop(&mut w, &mut t, &mut notified, true));
    assert_eq!((w, t.multiplier), (WarpLevel(1), 5));
    // leaving the Moon clears the warning flag
    assert!(!warp_auto_drop(&mut w, &mut t, &mut notified, false));
    assert!(!notified);
    w = WarpLevel(3);
    assert!(warp_auto_drop(&mut w, &mut t, &mut notified, true));
}

#[test]
fn warp_low_levels_untouched_near_moon() {
    let mut w = WarpLevel(1);
    let mut t = TimeScale { multiplier: 5 };
    let mut notified = false;
    assert!(!warp_auto_drop(&mut w, &mut t, &mut notified, true));
    assert_eq!((w, t.multiplier, notified), (WarpLevel(1), 5, false));
}
