use camera_pipeline::frame::RawFrame;
use camera_pipeline::geometry::WindowSize;
use camera_pipeline::pipeline::AcquireRecovery;
use camera_pipeline::pipeline::FramePlan;
use camera_pipeline::pipeline::SurfaceError;
use camera_pipeline::pipeline::plan_frame;
use camera_pipeline::pipeline::process_frames;
use camera_pipeline::pipeline::recover_acquire;
use camera_pipeline::pipeline::render_frame;
use camera_pipeline::state::AppState;
use camera_pipeline::target::RenderTarget;
use camera_pipeline::target::SurfaceFormat;
use camera_pipeline::target::make_surface_config;

fn target_sized(width: u32, height: u32) -> RenderTarget {
    RenderTarget::new(make_surface_config(
        WindowSize { width, height },
        SurfaceFormat::Bgra8Srgb,
    ))
}

fn gray_frame(width: u32, height: u32) -> RawFrame {
    RawFrame::new(
        vec![128u8; 2 * width as usize * height as usize],
        width,
        height,
    )
    .unwrap()
}

#[test]
fn ten_frames_end_to_end() {
    // A producer emits 10 frames of 640x480 mid-gray; the loop converts,
    // lays out and presents every one of them, then returns when the
    // sequence is exhausted: the graceful shutdown.
    let frames: Vec<RawFrame> = (0..10).map(|_| gray_frame(640, 480)).collect();
    let mode = AppState::default();
    let mut target = target_sized(640, 480);

    let presented = process_frames(&frames, &mode, &mut target);

    assert_eq!(presented.len(), 10);
    for p in &presented {
        assert_eq!((p.width, p.height), (640, 480));
        assert_eq!(p.pixels.len(), 4 * 640 * 480);
        for px in p.pixels.chunks_exact(4) {
            assert_eq!(px, &[130, 130, 130, 255]);
        }
        // Camera and target share the aspect ratio: the quad fills the
        // target exactly.
        assert_eq!(p.layout.size_x_num, 2 * p.layout.size_x_den);
        assert_eq!(p.layout.size_y_num, 2 * p.layout.size_y_den);
        // Every draw captured the one installed surface with its own config.
        assert_eq!(p.surface_epoch, 0);
        assert_eq!(p.config, target.config);
    }
}

#[test]
fn paused_loop_discards_frames() {
    let frames = vec![gray_frame(640, 480), gray_frame(640, 480)];
    let mut mode = AppState::default();
    mode.try_begin_swap();
    let mut target = target_sized(640, 480);
    let before = target;

    let presented = process_frames(&frames, &mode, &mut target);
    assert!(presented.is_empty());
    assert_eq!(target, before);
}

#[test]
fn pending_reconfigure_is_served_before_drawing() {
    let mode = AppState::default();
    let mut target = target_sized(640, 480);
    target.apply_resize(WindowSize { width: 800, height: 600 });
    assert!(target.needs_reconfigure);
    assert_eq!(
        plan_frame(&mode, &target),
        FramePlan::Render { reconfigure_first: true }
    );

    let frame = gray_frame(640, 480);
    let p = render_frame(&frame, &mode, &mut target).unwrap();
    assert!(!target.needs_reconfigure);
    assert_eq!((p.config.width, p.config.height), (800, 600));
}

#[test]
fn plan_skips_while_paused() {
    let mut mode = AppState::default();
    mode.try_begin_swap();
    let target = target_sized(640, 480);
    assert_eq!(plan_frame(&mode, &target), FramePlan::SkipPaused);
}

#[test]
fn no_draw_is_planned_mid_swap() {
    let mut mode = AppState::default();
    let mut target = target_sized(640, 480);
    mode.try_begin_swap();
    // Before the swap commits the old pair is stored; no draw is planned.
    assert_eq!(plan_frame(&mode, &target), FramePlan::SkipPaused);
    let new_config = make_surface_config(
        WindowSize { width: 800, height: 600 },
        SurfaceFormat::Rgba8Srgb,
    );
    target.commit_swap(new_config);
    // After the commit the new pair is stored; still no draw until resume.
    assert_eq!(plan_frame(&mode, &target), FramePlan::SkipPaused);
    mode.finish_swap();
    assert!(matches!(plan_frame(&mode, &target), FramePlan::Render { .. }));
}

#[test]
fn plan_renders_without_pending_request() {
    let mode = AppState::default();
    let target = target_sized(640, 480);
    assert_eq!(
        plan_frame(&mode, &target),
        FramePlan::Render { reconfigure_first: false }
    );
}

#[test]
fn outdated_and_lost_earn_one_retry() {
    assert_eq!(
        recover_acquire(SurfaceError::Outdated, false),
        AcquireRecovery::ReconfigureAndRetry
    );
    assert_eq!(
        recover_acquire(SurfaceError::Lost, false),
        AcquireRecovery::ReconfigureAndRetry
    );
}

#[test]
fn second_failure_skips_the_frame() {
    assert_eq!(
        recover_acquire(SurfaceError::Outdated, true),
        AcquireRecovery::SkipFrame
    );
    assert_eq!(
        recover_acquire(SurfaceError::Lost, true),
        AcquireRecovery::SkipFrame
    );
}

#[test]
fn other_errors_skip_without_retry() {
    assert_eq!(
        recover_acquire(SurfaceError::Timeout, false),
        AcquireRecovery::SkipFrame
    );
    assert_eq!(
        recover_acquire(SurfaceError::OutOfMemory, false),
        AcquireRecovery::SkipFrame
    );
    assert_eq!(
        recover_acquire(SurfaceError::Other, false),
        AcquireRecovery::SkipFrame
    );
}

#[test]
fn draw_captures_the_pair_installed_by_the_last_swap() {
    let mode = AppState::default();
    let mut target = target_sized(640, 480);
    let new_config = make_surface_config(
        WindowSize { width: 1920, height: 1080 },
        SurfaceFormat::Rgba8Srgb,
    );
    target.commit_swap(new_config);

    let frame = gray_frame(640, 480);
    let p = render_frame(&frame, &mode, &mut target).unwrap();
    assert_eq!(p.surface_epoch, 1);
    assert_eq!(p.config, new_config);
}
