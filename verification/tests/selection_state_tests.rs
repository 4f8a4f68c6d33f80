use snapparse::selection::monitor::{is_latest_release_id, judge_release};
use snapparse::selection::state::{SelectionPoint, SelectionRuntimeState};

fn point(x: i32, y: i32) -> SelectionPoint {
    SelectionPoint { x, y }
}

#[test]
fn sequential_releases_get_epochs_one_to_n() {
    let mut state = SelectionRuntimeState::default();
    assert!(state.is_latest_release(0));
    for n in 1..=25u64 {
        let snapshot = state.begin_release(point(n as i32, 0), 1_000 * n as u128);
        assert_eq!(snapshot.release_id, n);
        assert!(state.is_latest_release(n));
        for earlier in 0..n {
            assert!(!state.is_latest_release(earlier));
        }
        assert!(!state.is_latest_release(n + 1));
    }
}

#[test]
fn first_release_assumes_previous_release_ten_seconds_ago_at_same_point() {
    let mut state = SelectionRuntimeState::default();
    let snapshot = state.begin_release(point(40, 50), 25_000);
    assert_eq!(snapshot.release_id, 1);
    assert_eq!(snapshot.previous_release_time_ms, 15_000);
    assert_eq!(snapshot.previous_release_position, point(40, 50));
    assert_eq!(snapshot.press_position, point(40, 50));
    assert_eq!(snapshot.pressed_duration_ms, 0);
}

#[test]
fn first_release_lookback_stops_at_zero() {
    let mut state = SelectionRuntimeState::default();
    let snapshot = state.begin_release(point(1, 2), 9_999);
    assert_eq!(snapshot.previous_release_time_ms, 0);
    let mut other = SelectionRuntimeState::default();
    let snapshot = other.begin_release(point(1, 2), 10_000);
    assert_eq!(snapshot.previous_release_time_ms, 0);
    let mut third = SelectionRuntimeState::default();
    let snapshot = third.begin_release(point(1, 2), 10_001);
    assert_eq!(snapshot.previous_release_time_ms, 1);
}

#[test]
fn snapshot_holds_values_from_before_the_release() {
    let mut state = SelectionRuntimeState::default();
    state.record_press(point(10, 20));
    let first = state.begin_release_with_duration(point(30, 40), 5_000_000, 450);
    assert_eq!(first.release_id, 1);
    assert_eq!(first.press_position, point(10, 20));
    assert_eq!(first.previous_release_position, point(30, 40));
    assert_eq!(first.previous_release_time_ms, 4_990_000);
    assert_eq!(first.pressed_duration_ms, 450);

    state.record_press(point(100, 200));
    let second = state.begin_release_with_duration(point(300, 400), 5_000_700, 12);
    assert_eq!(second.release_id, 2);
    assert_eq!(second.press_position, point(100, 200));
    assert_eq!(second.previous_release_position, point(30, 40));
    assert_eq!(second.previous_release_time_ms, 5_000_000);
    assert_eq!(second.pressed_duration_ms, 12);
}

#[test]
fn record_press_does_not_touch_the_epoch() {
    let mut state = SelectionRuntimeState::default();
    state.begin_release(point(0, 0), 1);
    state.record_press(point(5, 5));
    state.record_press(point(6, 6));
    assert!(state.is_latest_release(1));
    let snapshot = state.begin_release(point(9, 9), 2);
    assert_eq!(snapshot.release_id, 2);
    assert_eq!(snapshot.press_position, point(6, 6));
}

#[test]
fn pressed_duration_is_read_from_the_clock() {
    let mut state = SelectionRuntimeState::default();
    state.record_press(point(0, 0));
    let started = std::time::Instant::now();
    while started.elapsed().as_millis() < 30 {
        std::hint::spin_loop();
    }
    let snapshot = state.begin_release(point(0, 0), 50_000);
    assert!(snapshot.pressed_duration_ms >= 30);
    assert!(snapshot.pressed_duration_ms < 20_000);
}

#[test]
fn two_releases_at_the_same_point_150_ms_apart_are_a_double_click() {
    let mut state = SelectionRuntimeState::default();
    let here = point(640, 360);
    state.record_press(here);
    state.begin_release_with_duration(here, 2_000_000, 60);
    state.record_press(here);
    let now = 2_000_150;
    let snapshot = state.begin_release_with_duration(here, now, 55);
    let result = judge_release(
        snapshot.press_position.x,
        snapshot.press_position.y,
        snapshot.previous_release_position.x,
        snapshot.previous_release_position.y,
        here.x,
        here.y,
        snapshot.pressed_duration_ms,
        snapshot.previous_release_time_ms,
        now,
    );
    assert!(result.is_double_click_selection);
    assert!(result.is_selection_candidate);
    assert!(!result.is_drag_selection);
}

#[test]
fn state_that_cannot_be_reached_has_no_latest_release() {
    let mut state = SelectionRuntimeState::default();
    state.begin_release(point(0, 0), 1);
    assert!(is_latest_release_id(Some(&state), 1));
    assert!(!is_latest_release_id(Some(&state), 0));
    assert!(!is_latest_release_id(None, 1));
    assert!(!is_latest_release_id(None, 0));
}
