use snapparse::selection::monitor::judge_release;

#[test]
fn drag_release_above_threshold_is_selection_candidate() {
    let result = judge_release(0, 0, 10, 10, 28, 0, 420, 900, 1700);
    assert!(result.is_selection_candidate);
    assert!(result.is_drag_selection);
}

#[test]
fn tiny_move_with_short_interval_is_double_click_selection() {
    let result = judge_release(104, 102, 100, 100, 104, 102, 120, 1000, 1500);
    assert!(result.is_selection_candidate);
    assert!(result.is_double_click_selection);
}

#[test]
fn short_press_without_distance_is_not_selection_candidate() {
    let result = judge_release(200, 200, 202, 201, 203, 202, 90, 1300, 2400);
    assert!(!result.is_selection_candidate);
}

#[test]
fn press_at_origin_released_at_30_30_after_420_ms_is_a_candidate() {
    let result = judge_release(0, 0, 500, 500, 30, 30, 420, 0, 100_000);
    assert!(result.is_drag_selection);
    assert!(!result.is_double_click_selection);
    assert!(result.is_selection_candidate);
}

#[test]
fn long_far_press_is_a_drag_whatever_the_release_interval() {
    for (previous, current) in [(0u128, 0u128), (0, 699), (0, 700), (5_000, 10), (1, u128::MAX)] {
        let result = judge_release(100, 100, 0, 0, 121, 100, 301, previous, current);
        assert!(result.is_drag_selection);
        assert!(result.is_selection_candidate);
    }
}

#[test]
fn quick_near_release_is_a_double_click_whatever_the_press() {
    for (px, py, held) in [(0, 0, 0u128), (-5_000, 7_000, 10_000), (104, 102, 301)] {
        let result = judge_release(px, py, 100, 100, 106, 107, held, 1_000, 1_699);
        assert!(result.is_double_click_selection);
        assert!(result.is_selection_candidate);
    }
}

#[test]
fn thresholds_are_strict() {
    // 12-16-20 triangle: the distance is exactly 20.
    assert!(!judge_release(0, 0, 900, 900, 12, 16, 1_000, 0, 50_000).is_drag_selection);
    assert!(judge_release(0, 0, 900, 900, 12, 17, 1_000, 0, 50_000).is_drag_selection);
    // held for exactly 300 ms.
    assert!(!judge_release(0, 0, 900, 900, 100, 0, 300, 0, 50_000).is_drag_selection);
    assert!(judge_release(0, 0, 900, 900, 100, 0, 301, 0, 50_000).is_drag_selection);
    // 6-8-10 triangle: the distance is exactly 10.
    assert!(!judge_release(0, 0, 0, 0, 6, 8, 0, 1_000, 1_100).is_double_click_selection);
    assert!(judge_release(0, 0, 0, 0, 6, 7, 0, 1_000, 1_100).is_double_click_selection);
    // exactly 700 ms apart.
    assert!(!judge_release(0, 0, 0, 0, 1, 1, 0, 1_000, 1_700).is_double_click_selection);
    assert!(judge_release(0, 0, 0, 0, 1, 1, 0, 1_000, 1_699).is_double_click_selection);
}

#[test]
fn release_interval_never_goes_below_zero() {
    let result = judge_release(0, 0, 10, 10, 10, 10, 0, 9_000, 1_000);
    assert!(result.is_double_click_selection);
}

#[test]
fn judgement_does_not_change_when_everything_is_moved() {
    let cases = [
        (0, 0, 10, 10, 28, 0, 420u128, 900u128, 1_700u128),
        (104, 102, 100, 100, 104, 102, 120, 1_000, 1_500),
        (200, 200, 202, 201, 203, 202, 90, 1_300, 2_400),
        (5, 5, 5, 5, 5, 5, 0, 2_000, 1_000),
    ];
    for (px, py, rx, ry, cx, cy, held, previous, current) in cases {
        let plain = judge_release(px, py, rx, ry, cx, cy, held, previous, current);
        for (dx, dy, dt) in [(1_000, -2_000, 5u128), (-77, 3, 1_000_000), (0, 0, 0)] {
            let moved = judge_release(
                px + dx,
                py + dy,
                rx + dx,
                ry + dy,
                cx + dx,
                cy + dy,
                held,
                previous + dt,
                current + dt,
            );
            assert_eq!(plain, moved);
        }
    }
}

#[test]
fn judgement_holds_at_the_ends_of_the_coordinate_range() {
    let result = judge_release(
        i32::MIN,
        i32::MIN,
        i32::MAX,
        i32::MAX,
        i32::MAX,
        i32::MAX,
        u128::MAX,
        0,
        u128::MAX,
    );
    assert!(result.is_drag_selection);
    assert!(!result.is_double_click_selection);
}
