//! The frame orchestrator: resize policy, frame counting, scroll
//! accumulation and key bookkeeping.

use hollow::orchestrator::{
    acquire_error_recovery, AcquireError, AcquireRecovery, EventAction, FrameOrchestrator,
    WindowEvent,
};
use hollow::wgpu::controller::WGPUController;
use hollow::wgpu::texture::TextureFormat;

fn context() -> WGPUController {
    WGPUController::new_configured(800, 600, TextureFormat::Bgra8UnormSrgb)
}

#[test]
fn zero_width_resize_leaves_surface_configuration_unchanged() {
    let mut ctx = context();
    let mut st = FrameOrchestrator::new();
    let config_before = ctx.config;
    let configured_before = ctx.surface.configured;
    st.resize(&mut ctx, 0, 480);
    assert_eq!(ctx.config, config_before);
    assert_eq!(ctx.surface.configured, configured_before);
    // The reported size is still recorded.
    assert_eq!(st.surface_pixel_dimensions, [0, 480]);
}

#[test]
fn zero_height_resize_leaves_surface_configuration_unchanged() {
    let mut ctx = context();
    let mut st = FrameOrchestrator::new();
    let config_before = ctx.config;
    st.resize(&mut ctx, 640, 0);
    assert_eq!(ctx.config, config_before);
    assert_eq!(st.surface_pixel_dimensions, [640, 0]);
}

#[test]
fn nonzero_resize_reconfigures_surface() {
    let mut ctx = context();
    let mut st = FrameOrchestrator::new();
    st.resize(&mut ctx, 1024, 768);
    assert_eq!(ctx.config.width, 1024);
    assert_eq!(ctx.config.height, 768);
    assert_eq!(ctx.surface.configured, Some(ctx.config));
    assert_eq!(st.surface_pixel_dimensions, [1024, 768]);
}

#[test]
fn frame_index_starts_at_zero_and_counts_presented_frames() {
    let mut ctx = context();
    let mut st = FrameOrchestrator::new();
    st.resize(&mut ctx, 800, 600);
    assert_eq!(st.frame_index, 0);
    let fd = {
        st.begin_frame(16_000);
        st.frame_data()
    };
    assert_eq!(fd.frame_index, 0);
    st.finish_frame();
    assert_eq!(st.frame_index, 1);
    st.begin_frame(33_000);
    st.finish_frame();
    assert_eq!(st.frame_index, 2);
}

#[test]
fn lost_frame_does_not_advance_frame_index() {
    let mut ctx = context();
    let mut st = FrameOrchestrator::new();
    st.resize(&mut ctx, 800, 600);
    st.begin_frame(16_000);
    st.finish_frame();
    assert_eq!(st.frame_index, 1);
    // Acquisition reports the surface lost: the loop resizes and retries
    // next frame, presenting nothing, so the index must stay put.
    st.begin_frame(33_000);
    st.resize(&mut ctx, 800, 600);
    assert_eq!(st.frame_index, 1);
    st.begin_frame(50_000);
    st.finish_frame();
    assert_eq!(st.frame_index, 2);
}

#[test]
fn frame_delta_measures_time_since_previous_frame() {
    let mut ctx = context();
    let mut st = FrameOrchestrator::new();
    st.resize(&mut ctx, 800, 600);
    st.begin_frame(10_000);
    let fd = st.frame_data();
    assert_eq!(fd.t, 10_000);
    assert_eq!(fd.delta_t, 10_000);
    st.finish_frame();
    st.begin_frame(26_500);
    let fd = st.frame_data();
    assert_eq!(fd.t, 26_500);
    assert_eq!(fd.delta_t, 16_500);
}

#[test]
fn scroll_accumulates_within_a_frame_and_resets_on_present() {
    let mut ctx = context();
    let mut st = FrameOrchestrator::new();
    st.resize(&mut ctx, 800, 600);
    st.note_scroll(2, -1);
    st.note_scroll(5, 4);
    st.note_scroll(-3, 10);
    let fd = {
        st.begin_frame(1_000);
        st.frame_data()
    };
    assert_eq!(fd.scroll_delta, (4, 13));
    st.finish_frame();
    assert_eq!(st.scroll_delta, (0, 0));
    let fd = st.frame_data();
    assert_eq!(fd.scroll_delta, (0, 0));
}

#[test]
fn scroll_saturates_at_the_ends_of_the_range() {
    let mut st = FrameOrchestrator::new();
    st.note_scroll(i64::MAX, i64::MIN);
    st.note_scroll(1, -1);
    assert_eq!(st.scroll_delta, (i64::MAX, i64::MIN));
}

#[test]
fn pointer_state_feeds_frame_data() {
    let mut ctx = context();
    let mut st = FrameOrchestrator::new();
    st.resize(&mut ctx, 800, 600);
    st.note_pointer_moved(400, 300);
    st.note_mouse_button(true);
    st.begin_frame(1_000);
    let fd = st.frame_data();
    assert!(fd.mouse_down);
    let p = fd.mouse_pos.expect("pointer is on the surface");
    assert_eq!((p.x_num, p.y_num, p.denom), (0, 0, 600));
    st.note_pointer_left();
    st.note_mouse_button(false);
    let fd = st.frame_data();
    assert!(fd.mouse_pos.is_none());
    assert!(!fd.mouse_down);
}

#[test]
fn keys_are_held_once_and_released() {
    let mut ctx = context();
    let mut st = FrameOrchestrator::new();
    st.resize(&mut ctx, 800, 600);
    st.note_key_pressed("a");
    st.note_key_pressed("b");
    st.note_key_pressed("a");
    st.begin_frame(1_000);
    let fd = st.frame_data();
    assert_eq!(fd.down_keys.len(), 2);
    assert!(fd.is_key_down("a"));
    assert!(fd.is_key_down("b"));
    assert!(!fd.is_key_down("c"));
    st.note_key_released("a");
    let fd = st.frame_data();
    assert!(!fd.is_key_down("a"));
    assert!(fd.is_key_down("b"));
    st.note_key_released("c");
    assert!(st.has_key("b"));
}

#[test]
fn only_a_lost_surface_is_recoverable() {
    assert_eq!(acquire_error_recovery(AcquireError::Lost), AcquireRecovery::ReconfigureAndRetry);
    assert_eq!(acquire_error_recovery(AcquireError::Timeout), AcquireRecovery::Fatal);
    assert_eq!(acquire_error_recovery(AcquireError::Outdated), AcquireRecovery::Fatal);
    assert_eq!(acquire_error_recovery(AcquireError::OutOfMemory), AcquireRecovery::Fatal);
}

#[test]
fn window_events_drive_the_state_machine() {
    let mut ctx = context();
    let mut st = FrameOrchestrator::new();
    let action = st.handle_window_event(&mut ctx, WindowEvent::Resized { width: 800, height: 600 });
    assert_eq!(action, EventAction::Continue);
    assert_eq!(ctx.config.width, 800);
    let action = st.handle_window_event(&mut ctx, WindowEvent::CursorMoved { x: 20, y: 30 });
    assert_eq!(action, EventAction::Continue);
    let action = st.handle_window_event(&mut ctx, WindowEvent::MouseWheel { dx: 1, dy: 2 });
    assert_eq!(action, EventAction::Continue);
    assert_eq!(st.scroll_delta, (1, 2));
    let action = st.handle_window_event(
        &mut ctx,
        WindowEvent::KeyPressed { key: String::from("w") },
    );
    assert_eq!(action, EventAction::KeyCallback);
    assert!(st.has_key("w"));
    let action = st.handle_window_event(&mut ctx, WindowEvent::RedrawRequested { now: 16_000 });
    assert_eq!(action, EventAction::RenderFrame);
    assert_eq!(st.last_frame_timestamp, 16_000);
    let action = st.handle_window_event(
        &mut ctx,
        WindowEvent::KeyReleased { key: String::from("w") },
    );
    assert_eq!(action, EventAction::Continue);
    assert!(!st.has_key("w"));
    let action = st.handle_window_event(&mut ctx, WindowEvent::CloseRequested);
    assert_eq!(action, EventAction::Exit);
}
