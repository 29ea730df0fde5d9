use aspen_renderer::renderpass::HaltPolicy;
use aspen_renderer::window_surface::{AcquireOutcome, AcquirePlan, WindowSurface};

#[test]
fn zero_width_or_height_halts_the_frame() {
    let surface = WindowSurface::new();
    assert_eq!(surface.plan_setup([0, 600]), Err(HaltPolicy::HaltAll));
    assert_eq!(surface.plan_setup([800, 0]), Err(HaltPolicy::HaltAll));
    assert_eq!(surface.plan_setup([0, 0]), Err(HaltPolicy::HaltAll));
}

#[test]
fn fresh_surface_plans_a_recreation_first() {
    let surface = WindowSurface::new();
    assert_eq!(surface.plan_setup([800, 600]), Ok(AcquirePlan::RecreateThenAcquire));
}

#[test]
fn settled_surface_acquires_directly() {
    let mut surface = WindowSurface::new();
    surface.record_recreated(2);
    assert!(!surface.recreate_swapchain);
    assert_eq!(surface.num_frames_in_flight, 2);
    assert_eq!(surface.plan_setup([800, 600]), Ok(AcquirePlan::AcquireNow));
}

#[test]
fn successful_acquire_publishes_the_snapshot() {
    let mut surface = WindowSurface::new();
    surface.record_recreated(3);
    let info = surface
        .apply_acquire([800, 600], AcquireOutcome::Acquired { image_index: 1, suboptimal: false })
        .unwrap();
    assert_eq!(info.num_frames_in_flight, 3);
    assert_eq!(info.image_index, 1);
    assert_eq!(info.image_extent, [800, 600]);
    assert!(!surface.recreate_swapchain);
}

#[test]
fn out_of_date_acquire_halts_and_flags_recreation() {
    let mut surface = WindowSurface::new();
    surface.record_recreated(2);
    let halted = surface.apply_acquire([800, 600], AcquireOutcome::OutOfDate);
    assert!(matches!(halted, Err(HaltPolicy::HaltAll)));
    assert!(surface.recreate_swapchain);
    // The next frame's setup observes the flag, recreates, and proceeds
    // normally.
    assert_eq!(surface.plan_setup([800, 600]), Ok(AcquirePlan::RecreateThenAcquire));
    surface.record_recreated(2);
    assert!(!surface.recreate_swapchain);
    let info = surface
        .apply_acquire([800, 600], AcquireOutcome::Acquired { image_index: 0, suboptimal: false })
        .unwrap();
    assert_eq!(info.image_index, 0);
}

#[test]
fn suboptimal_acquire_proceeds_but_flags_recreation() {
    let mut surface = WindowSurface::new();
    surface.record_recreated(2);
    let info = surface
        .apply_acquire([640, 480], AcquireOutcome::Acquired { image_index: 1, suboptimal: true })
        .unwrap();
    assert_eq!(info.image_index, 1);
    assert!(surface.recreate_swapchain);
}

#[test]
fn submission_parks_the_fence_and_moves_the_previous_index() {
    let mut surface = WindowSurface::new();
    surface.record_recreated(2);
    assert!(!surface.fence_pending(1));
    surface.record_submission(1, true);
    assert_eq!(surface.previous_frame_index, 1);
    assert!(surface.fence_pending(1));
    assert!(!surface.fence_pending(0));
    // A flush absorbed as "no prior frame to wait on" clears the slot.
    surface.record_submission(1, false);
    assert!(!surface.fence_pending(1));
}

#[test]
fn recreation_keeps_surviving_fences_and_reins_in_the_index() {
    let mut surface = WindowSurface::new();
    surface.record_recreated(3);
    surface.record_submission(2, true);
    surface.record_submission(0, true);
    surface.record_submission(2, true);
    assert_eq!(surface.previous_frame_index, 2);
    surface.record_recreated(2);
    assert_eq!(surface.num_frames_in_flight, 2);
    assert_eq!(surface.previous_frame_index, 0);
    assert!(surface.fence_pending(0));
    assert!(!surface.fence_pending(1));
}
