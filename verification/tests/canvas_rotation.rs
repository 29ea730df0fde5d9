use aspen_renderer::canvas::CanvasState;

#[test]
fn fresh_canvas_reports_zero_extent_and_no_frames() {
    let state = CanvasState::new();
    assert_eq!(state.extent, [0, 0]);
    assert_eq!(state.num_frames_in_flight, 0);
    assert_eq!(state.current_set, 0);
}

#[test]
fn rebuild_records_exact_extent_and_count() {
    let mut state = CanvasState::new();
    state.rebuild([800, 600, 1], 3);
    assert_eq!(state.extent, [800, 600]);
    assert_eq!(state.num_frames_in_flight, 3);
    state.rebuild([1024, 768, 1], 5);
    assert_eq!(state.extent, [1024, 768]);
    assert_eq!(state.num_frames_in_flight, 5);
}

#[test]
fn rotation_is_cyclic_over_many_requests() {
    let mut state = CanvasState::new();
    state.rebuild([64, 64, 1], 3);
    for k in 1..=10usize {
        state.advance();
        assert_eq!(state.current_set, k % 3);
    }
}

#[test]
fn rotation_sequence_800_600_two_frames() {
    let mut state = CanvasState::new();
    state.rebuild([800, 600, 1], 2);
    assert_eq!(state.current_set, 0);
    let mut observed = Vec::new();
    for _ in 0..3 {
        state.advance();
        observed.push(state.current_set);
    }
    assert_eq!(observed, vec![1, 0, 1]);
}

#[test]
fn single_frame_rotation_stays_at_zero() {
    let mut state = CanvasState::new();
    state.rebuild([16, 16, 1], 1);
    state.advance();
    assert_eq!(state.current_set, 0);
    state.advance();
    assert_eq!(state.current_set, 0);
}

#[test]
fn shrinking_rebuild_wraps_rotation_index_into_range() {
    let mut state = CanvasState::new();
    state.rebuild([32, 32, 1], 3);
    state.advance();
    state.advance();
    assert_eq!(state.current_set, 2);
    state.rebuild([32, 32, 1], 2);
    assert_eq!(state.current_set, 0);
    assert_eq!(state.num_frames_in_flight, 2);
}

#[test]
fn rebuild_accepts_the_largest_extent() {
    let mut state = CanvasState::new();
    state.rebuild([u32::MAX, u32::MAX, 1], 2);
    assert_eq!(state.extent, [u32::MAX, u32::MAX]);
    state.advance();
    assert_eq!(state.current_set, 1);
}
