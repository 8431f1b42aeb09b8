use touchhle::gles::gles1_on_gles2_logging::{
    log_coordinate_transformation_stack, log_pipeline_state, log_viewport_state_change, log_window_state,
    rect_eq, reset_state, set_scissor_test_enabled, sync_scissor_to_viewport, trace_viewport_usage,
    update_scissor_state, update_scissor_test_enabled, update_viewport_state, verify_viewport_state_in_gpu,
    GLStateManager,
};

#[test]
fn initial_state() {
    let s = GLStateManager::new();
    assert_eq!(s.current_viewport, (0, 0, 0, 0));
    assert_eq!(s.current_scissor, (0, 0, 0, 0));
    assert_eq!(s.logical_size, (480, 320));
    assert_eq!(s.drawable_size, (0, 0));
    assert_eq!(s.change_count, 0);
    assert!(!s.scissor_was_explicitly_set);
    assert!(!s.scissor_test_enabled);
    assert!(s.last_pipeline_log.is_none());
    assert!(s.last_gpu_verify.is_none());
}

#[test]
fn viewport_change_report_classifies() {
    assert!(log_viewport_state_change(3, (0, 0, 480, 320), (0, 0, 480, 320)).is_none());
    let r = log_viewport_state_change(4, (0, 0, 480, 320), (0, 0, 320, 480)).unwrap();
    assert_eq!(r.change_count, 4);
    assert!(r.size_changed);
    assert!(!r.position_changed);
    let r = log_viewport_state_change(5, (0, 0, 480, 320), (10, 0, 480, 320)).unwrap();
    assert!(!r.size_changed);
    assert!(r.position_changed);
    assert_eq!(r.old_viewport, (0, 0, 480, 320));
    assert_eq!(r.new_viewport, (10, 0, 480, 320));
}

#[test]
fn viewport_updates_count_changes_only() {
    let mut s = GLStateManager::new();
    let r = update_viewport_state(&mut s, (0, 0, 640, 960)).unwrap();
    assert_eq!(r.change_count, 1);
    assert!(r.size_changed);
    assert_eq!(s.previous_viewport, (0, 0, 0, 0));
    assert_eq!(s.current_viewport, (0, 0, 640, 960));
    assert!(s.viewport_changed);
    assert!(update_viewport_state(&mut s, (0, 0, 640, 960)).is_none());
    assert_eq!(s.change_count, 1);
    assert!(!s.viewport_changed);
    assert_eq!(s.previous_viewport, (0, 0, 640, 960));
    let r = update_viewport_state(&mut s, (0, 0, 960, 640)).unwrap();
    assert_eq!(r.change_count, 2);
    assert_eq!(r.old_viewport, (0, 0, 640, 960));
}

#[test]
fn scissor_update_claims_scissor() {
    let mut s = GLStateManager::new();
    let r = update_scissor_state(&mut s, (1, 2, 3, 4)).unwrap();
    assert_eq!(r.old_scissor, (0, 0, 0, 0));
    assert_eq!(r.new_scissor, (1, 2, 3, 4));
    assert!(s.scissor_was_explicitly_set);
    assert!(s.scissor_changed);
    assert!(update_scissor_state(&mut s, (1, 2, 3, 4)).is_none());
    assert!(!s.scissor_changed);
    assert_eq!(s.previous_scissor, (1, 2, 3, 4));
}

#[test]
fn unclaimed_scissor_follows_viewport() {
    let mut s = GLStateManager::new();
    assert!(sync_scissor_to_viewport(&mut s).is_none());
    update_viewport_state(&mut s, (0, 0, 320, 480));
    assert_eq!(sync_scissor_to_viewport(&mut s), Some((0, 0, 320, 480)));
    assert_eq!(s.current_scissor, (0, 0, 320, 480));
    assert_eq!(s.previous_scissor, (0, 0, 0, 0));
    assert!(s.scissor_changed);
    assert!(sync_scissor_to_viewport(&mut s).is_none());
}

#[test]
fn claimed_scissor_is_not_synced_until_reset() {
    let mut s = GLStateManager::new();
    update_scissor_state(&mut s, (5, 5, 10, 10));
    update_viewport_state(&mut s, (0, 0, 320, 480));
    assert!(sync_scissor_to_viewport(&mut s).is_none());
    assert_eq!(s.current_scissor, (5, 5, 10, 10));
    reset_state(&mut s);
    update_viewport_state(&mut s, (0, 0, 320, 480));
    assert_eq!(sync_scissor_to_viewport(&mut s), Some((0, 0, 320, 480)));
}

#[test]
fn reset_keeps_window_and_scissor_test() {
    let mut s = GLStateManager::new();
    set_scissor_test_enabled(&mut s, true);
    log_window_state(&mut s, (320, 480), (640, 960));
    update_viewport_state(&mut s, (1, 1, 1, 1));
    update_scissor_state(&mut s, (2, 2, 2, 2));
    verify_viewport_state_in_gpu(&mut s, (1, 1, 1, 1), (2, 2, 2, 2));
    reset_state(&mut s);
    assert!(s.scissor_test_enabled);
    assert_eq!(s.logical_size, (320, 480));
    assert_eq!(s.drawable_size, (640, 960));
    assert_eq!(s.current_viewport, (0, 0, 0, 0));
    assert_eq!(s.current_scissor, (0, 0, 0, 0));
    assert_eq!(s.change_count, 0);
    assert!(!s.scissor_was_explicitly_set);
    assert!(s.last_gpu_verify.is_none());
    assert!(s.last_pipeline_log.is_none());
}

#[test]
fn scissor_test_flag() {
    let mut s = GLStateManager::new();
    set_scissor_test_enabled(&mut s, true);
    assert!(s.scissor_test_enabled);
    update_scissor_test_enabled(&mut s, false);
    assert!(!s.scissor_test_enabled);
}

#[test]
fn pipeline_log_is_change_only() {
    let mut s = GLStateManager::new();
    let snap = log_pipeline_state(&mut s).unwrap();
    assert_eq!(snap, ((0, 0, 0, 0), (0, 0, 0, 0), (480, 320), (0, 0)));
    assert!(log_pipeline_state(&mut s).is_none());
    assert!(trace_viewport_usage(&mut s).is_none());
    update_viewport_state(&mut s, (0, 0, 480, 320));
    let snap = log_coordinate_transformation_stack(&mut s).unwrap();
    assert_eq!(snap.0, (0, 0, 480, 320));
    assert!(!s.viewport_changed);
    assert!(log_pipeline_state(&mut s).is_none());
}

#[test]
fn pipeline_logs_again_when_scissor_changes_back() {
    let mut s = GLStateManager::new();
    log_pipeline_state(&mut s);
    update_scissor_state(&mut s, (0, 0, 0, 0));
    assert!(log_pipeline_state(&mut s).is_none());
    update_scissor_state(&mut s, (1, 0, 0, 0));
    assert!(log_pipeline_state(&mut s).is_some());
}

#[test]
fn window_state_updates_sizes_and_logs() {
    let mut s = GLStateManager::new();
    let snap = log_window_state(&mut s, (320, 480), (640, 960)).unwrap();
    assert_eq!(snap.2, (320, 480));
    assert_eq!(snap.3, (640, 960));
    assert!(log_window_state(&mut s, (320, 480), (640, 960)).is_none());
    assert!(log_window_state(&mut s, (480, 320), (960, 640)).is_some());
}

#[test]
fn gpu_verify_reports_each_new_pair_once() {
    let mut s = GLStateManager::new();
    assert!(verify_viewport_state_in_gpu(&mut s, (0, 0, 640, 960), (0, 0, 640, 960)));
    assert!(!verify_viewport_state_in_gpu(&mut s, (0, 0, 640, 960), (0, 0, 640, 960)));
    assert!(verify_viewport_state_in_gpu(&mut s, (0, 0, 640, 960), (0, 0, 10, 10)));
    assert_eq!(s.last_gpu_verify, Some(((0, 0, 640, 960), (0, 0, 10, 10))));
}

#[test]
fn rect_equality() {
    assert!(rect_eq((1, 2, 3, 4), (1, 2, 3, 4)));
    assert!(!rect_eq((1, 2, 3, 4), (1, 2, 3, 5)));
}

#[test]
fn change_count_counts_changes_since_reset() {
    let mut s = GLStateManager::new();
    update_viewport_state(&mut s, (0, 0, 1, 1));
    update_viewport_state(&mut s, (0, 0, 1, 1));
    update_viewport_state(&mut s, (0, 0, 2, 2));
    update_scissor_state(&mut s, (0, 0, 5, 5));
    log_pipeline_state(&mut s);
    verify_viewport_state_in_gpu(&mut s, (0, 0, 2, 2), (0, 0, 5, 5));
    assert_eq!(s.change_count, 2);
    reset_state(&mut s);
    assert_eq!(s.change_count, 0);
    update_viewport_state(&mut s, (0, 0, 0, 0));
    update_viewport_state(&mut s, (1, 0, 0, 0));
    update_viewport_state(&mut s, (0, 0, 0, 0));
    assert_eq!(s.change_count, 2);
}

#[test]
fn claimed_scissor_survives_other_calls() {
    let mut s = GLStateManager::new();
    update_scissor_state(&mut s, (3, 3, 3, 3));
    update_viewport_state(&mut s, (0, 0, 9, 9));
    set_scissor_test_enabled(&mut s, true);
    log_window_state(&mut s, (1, 1), (2, 2));
    verify_viewport_state_in_gpu(&mut s, (0, 0, 9, 9), (3, 3, 3, 3));
    assert!(sync_scissor_to_viewport(&mut s).is_none());
    assert!(s.scissor_was_explicitly_set);
    assert_eq!(s.current_scissor, (3, 3, 3, 3));
}
