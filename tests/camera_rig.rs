use bevyon::{
    pan_total, zoom_all, zoom_step, CameraState, FrameInput, PointerDelta, Position, DELTA_ONE,
    INITIAL_SCALE, MAX_SCALE, MIN_SCALE, POSITION_ONE,
};

fn frame(pointer_deltas: Vec<PointerDelta>, scroll_deltas: Vec<i64>, held: bool) -> FrameInput {
    FrameInput { pointer_deltas, scroll_deltas, middle_button_held: held }
}

fn run(camera: &mut CameraState, input: &FrameInput) {
    assert!(camera.can_update(input));
    camera.update(input);
}

#[test]
fn new_camera_starts_at_initial_state() {
    let c = CameraState::new();
    assert_eq!(c.position, Position { x: 0, y: 0, z: -2 * POSITION_ONE });
    assert_eq!(c.zoom_scale, 100_000);
    assert_eq!(c.zoom_scale, INITIAL_SCALE);
}

#[test]
fn scroll_of_five_clamps_to_min_scale() {
    let mut c = CameraState::new();
    run(&mut c, &frame(vec![], vec![5 * DELTA_ONE], false));
    assert_eq!(c.zoom_scale, 1_000);
    assert_eq!(c.zoom_scale, MIN_SCALE);
}

#[test]
fn scroll_of_minus_five_doubles_scale() {
    let mut c = CameraState::new();
    run(&mut c, &frame(vec![], vec![-5 * DELTA_ONE], false));
    assert_eq!(c.zoom_scale, 200_000);
}

#[test]
fn held_button_pans_by_scaled_sum() {
    let mut c = CameraState::new();
    let deltas = vec![PointerDelta { dx: 10 * DELTA_ONE, dy: 0 }, PointerDelta { dx: 0, dy: 5 * DELTA_ONE }];
    run(&mut c, &frame(deltas, vec![], true));
    assert_eq!(c.position, Position { x: POSITION_ONE, y: POSITION_ONE / 2, z: -2 * POSITION_ONE });
    assert_eq!(c.zoom_scale, INITIAL_SCALE);
}

#[test]
fn released_button_discards_pointer_movement() {
    let mut c = CameraState::new();
    let deltas = vec![PointerDelta { dx: 123_456, dy: -987_654 }, PointerDelta { dx: -1, dy: 1 }];
    run(&mut c, &frame(deltas, vec![], false));
    assert_eq!(c.position, Position { x: 0, y: 0, z: -2 * POSITION_ONE });
}

#[test]
fn pan_uses_scale_before_this_frames_scroll() {
    let mut c = CameraState::new();
    let deltas = vec![PointerDelta { dx: 2 * DELTA_ONE, dy: -3 * DELTA_ONE }];
    run(&mut c, &frame(deltas, vec![-5 * DELTA_ONE], true));
    assert_eq!(c.position, Position { x: 200_000_000, y: -300_000_000, z: -2 * POSITION_ONE });
    assert_eq!(c.zoom_scale, 200_000);
}

#[test]
fn scroll_events_compound_in_order() {
    let mut c = CameraState::new();
    run(&mut c, &frame(vec![], vec![-5 * DELTA_ONE, -5 * DELTA_ONE], false));
    // 0.1 * 2 * 2, not 0.1 * (1 + 2)
    assert_eq!(c.zoom_scale, 400_000);
}

#[test]
fn each_scroll_event_is_clamped_before_the_next() {
    let mut c = CameraState::new();
    run(&mut c, &frame(vec![], vec![5 * DELTA_ONE, -5 * DELTA_ONE], false));
    // 0.1 -> 0 clamped to 0.001, then doubled
    assert_eq!(c.zoom_scale, 2_000);
}

#[test]
fn two_frames_equal_one_frame_with_both_batches() {
    let mut split = CameraState::new();
    run(&mut split, &frame(vec![], vec![-2_500, 1_000], false));
    run(&mut split, &frame(vec![], vec![3_000, -700], false));
    let mut joined = CameraState::new();
    run(&mut joined, &frame(vec![], vec![-2_500, 1_000, 3_000, -700], false));
    assert_eq!(split.zoom_scale, joined.zoom_scale);
    assert_eq!(joined.zoom_scale, 54_720);
}

#[test]
fn extreme_scroll_stays_in_bounds() {
    assert_eq!(zoom_step(INITIAL_SCALE, 1_000 * DELTA_ONE), MIN_SCALE);
    assert_eq!(zoom_step(INITIAL_SCALE, -1_000 * DELTA_ONE), MAX_SCALE);
    assert_eq!(zoom_step(MAX_SCALE, i64::MAX), MIN_SCALE);
    assert_eq!(zoom_step(MIN_SCALE, i64::MIN), MAX_SCALE);
    assert_eq!(zoom_step(u64::MAX, 0), MAX_SCALE);
    assert_eq!(zoom_step(0, 0), MIN_SCALE);
}

#[test]
fn zoom_step_rounds_down() {
    // 0.001001 * (1 - 0.001 / 5) = 0.0010007998
    assert_eq!(zoom_step(1_001, 1), 1_000);
    // 0.5 * (1 - 1 / 5) = 0.4
    assert_eq!(zoom_step(500_000, DELTA_ONE), 400_000);
    assert_eq!(zoom_step(333_333, 0), 333_333);
}

#[test]
fn zoom_all_of_no_events_keeps_scale() {
    assert_eq!(zoom_all(123_456, &vec![]), 123_456);
    assert_eq!(zoom_all(123_456, &vec![2_500]), 61_728);
}

#[test]
fn pan_total_adds_every_delta() {
    assert_eq!(pan_total(&vec![]), (0, 0));
    let ds = vec![
        PointerDelta { dx: 1, dy: -2 },
        PointerDelta { dx: 30, dy: 40 },
        PointerDelta { dx: -500, dy: 600 },
    ];
    assert_eq!(pan_total(&ds), (-469, 638));
    let big = vec![PointerDelta { dx: i64::MAX, dy: i64::MIN }; 3];
    assert_eq!(pan_total(&big), (3 * i64::MAX as i128, 3 * i64::MIN as i128));
}

#[test]
fn update_refused_where_position_would_overflow() {
    let c = CameraState { position: Position { x: i128::MAX, y: 0, z: 0 }, zoom_scale: MIN_SCALE };
    let moving = vec![PointerDelta { dx: 1, dy: 0 }];
    assert!(!c.can_update(&frame(moving.clone(), vec![], true)));
    assert!(c.can_update(&frame(moving.clone(), vec![], false)));
    let back = vec![PointerDelta { dx: -1, dy: 0 }];
    assert!(c.can_update(&frame(back, vec![], true)));
}

#[test]
fn apply_pan_and_apply_scroll_each_change_one_field() {
    let mut c = CameraState::new();
    c.apply_pan(&vec![PointerDelta { dx: -DELTA_ONE, dy: DELTA_ONE }]);
    assert_eq!(c.position, Position { x: -100_000_000, y: 100_000_000, z: -2 * POSITION_ONE });
    assert_eq!(c.zoom_scale, INITIAL_SCALE);
    c.apply_scroll(&vec![DELTA_ONE]);
    assert_eq!(c.zoom_scale, 80_000);
    assert_eq!(c.position, Position { x: -100_000_000, y: 100_000_000, z: -2 * POSITION_ONE });
}
