use greenland::Greenland;
use greenland::IdleAction;

fn state(idle: u32, last: &str) -> Greenland {
    Greenland { secs_since_cursor_update: idle, last_cursor_pos: last.to_string() }
}

#[test]
fn fresh_state_starts_at_one_second_idle() {
    let g = Greenland::new();
    assert_eq!(g.secs_since_cursor_update, 1);
    assert_eq!(g.last_cursor_pos, "");
    let d = Greenland::default();
    assert_eq!(d.secs_since_cursor_update, 1);
    assert_eq!(d.last_cursor_pos, "");
}

#[test]
fn unchanged_readings_increment_by_one_per_tick() {
    let mut g = state(1, "640,360");
    for expected in [2u32, 3, 4, 5, 6] {
        let action = g.perform_hibernation_check("640,360".to_string(), true);
        assert_eq!(action, IdleAction::NoAction);
        assert_eq!(g.secs_since_cursor_update, expected);
        assert_eq!(g.last_cursor_pos, "640,360");
    }
}

#[test]
fn movement_resets_counter_and_fires_nothing() {
    let mut g = state(100, "10,10");
    let action = g.perform_hibernation_check("11,10".to_string(), true);
    assert_eq!(action, IdleAction::NoAction);
    assert_eq!(g.secs_since_cursor_update, 1);
    assert_eq!(g.last_cursor_pos, "11,10");
}

#[test]
fn movement_on_a_threshold_tick_fires_nothing() {
    // Counter would reach 300 (the empty-workspace warning) this tick, but
    // the cursor moved, so the tick resets instead of warning.
    let mut g = state(299, "10,10");
    let action = g.perform_hibernation_check("12,34".to_string(), false);
    assert_eq!(action, IdleAction::NoAction);
    assert_eq!(g.secs_since_cursor_update, 1);
}

#[test]
fn occupied_workspace_warns_at_1500_and_suspends_at_1800() {
    let mut g = state(1, "10,10");
    for tick in 0..1799u32 {
        let action = g.perform_hibernation_check("10,10".to_string(), true);
        if tick == 1498 {
            assert_eq!(action, IdleAction::Warn);
            assert_eq!(g.secs_since_cursor_update, 1500);
        } else if tick == 1798 {
            assert_eq!(action, IdleAction::Suspend);
            assert_eq!(g.secs_since_cursor_update, 1);
        } else {
            assert_eq!(action, IdleAction::NoAction);
        }
    }
}

#[test]
fn empty_workspace_warns_at_300_and_suspends_at_600() {
    let mut g = state(1, "10,10");
    for tick in 0..599u32 {
        let action = g.perform_hibernation_check("10,10".to_string(), false);
        if tick == 298 {
            assert_eq!(action, IdleAction::Warn);
            assert_eq!(g.secs_since_cursor_update, 300);
        } else if tick == 598 {
            assert_eq!(action, IdleAction::Suspend);
            assert_eq!(g.secs_since_cursor_update, 1);
        } else {
            assert_eq!(action, IdleAction::NoAction);
        }
    }
}

#[test]
fn warning_fires_once_per_episode_and_again_after_reset() {
    let mut g = state(1, "10,10");
    let mut warnings = 0u32;
    // A full idle episode: ends with the suspend tick resetting the counter.
    for _ in 0..599u32 {
        if g.perform_hibernation_check("10,10".to_string(), false) == IdleAction::Warn {
            warnings += 1;
        }
    }
    assert_eq!(warnings, 1);
    assert_eq!(g.secs_since_cursor_update, 1);
    // A fresh climb after the reset fires the warning exactly once more.
    for _ in 0..599u32 {
        if g.perform_hibernation_check("10,10".to_string(), false) == IdleAction::Warn {
            warnings += 1;
        }
    }
    assert_eq!(warnings, 2);
}

#[test]
fn counter_runs_past_a_fired_warning() {
    let mut g = state(299, "5,5");
    let action = g.perform_hibernation_check("5,5".to_string(), false);
    assert_eq!(action, IdleAction::Warn);
    assert_eq!(g.secs_since_cursor_update, 300);
    let action = g.perform_hibernation_check("5,5".to_string(), false);
    assert_eq!(action, IdleAction::NoAction);
    assert_eq!(g.secs_since_cursor_update, 301);
}

#[test]
fn three_identical_readings_count_two_three_four() {
    let mut g = state(1, "10,10");
    let mut idles = Vec::new();
    for _ in 0..3 {
        let action = g.perform_hibernation_check("10,10".to_string(), false);
        assert_eq!(action, IdleAction::NoAction);
        idles.push(g.secs_since_cursor_update);
    }
    assert_eq!(idles, vec![2, 3, 4]);
}

#[test]
fn differing_then_identical_readings_count_one_two() {
    let mut g = state(1, "10,10");
    let mut idles = Vec::new();
    for reading in ["20,20", "20,20"] {
        let action = g.perform_hibernation_check(reading.to_string(), false);
        assert_eq!(action, IdleAction::NoAction);
        idles.push(g.secs_since_cursor_update);
    }
    assert_eq!(idles, vec![1, 2]);
}

#[test]
fn has_windows_is_any_reading_but_zero() {
    assert!(!Greenland::has_windows(&"0".to_string()));
    assert!(Greenland::has_windows(&"1".to_string()));
    assert!(Greenland::has_windows(&"17".to_string()));
    assert!(Greenland::has_windows(&"".to_string()));
}

#[test]
fn has_cursor_moved_stores_the_fresh_reading() {
    let mut g = state(7, "1,1");
    assert!(g.has_cursor_moved("2,2".to_string()));
    assert_eq!(g.last_cursor_pos, "2,2");
    assert_eq!(g.secs_since_cursor_update, 7);
    assert!(!g.has_cursor_moved("2,2".to_string()));
    assert_eq!(g.last_cursor_pos, "2,2");
}

#[test]
fn try_hibernate_compares_with_exact_equality() {
    // Past thresholds do not fire: only exact equality does.
    let mut g = state(301, "1,1");
    assert_eq!(g.try_hibernate(false), IdleAction::NoAction);
    assert_eq!(g.secs_since_cursor_update, 301);
    let mut g = state(601, "1,1");
    assert_eq!(g.try_hibernate(false), IdleAction::NoAction);
    assert_eq!(g.secs_since_cursor_update, 601);
    let mut g = state(600, "1,1");
    assert_eq!(g.try_hibernate(false), IdleAction::Suspend);
    assert_eq!(g.secs_since_cursor_update, 1);
    let mut g = state(1500, "1,1");
    assert_eq!(g.try_hibernate(true), IdleAction::Warn);
    assert_eq!(g.secs_since_cursor_update, 1500);
}
