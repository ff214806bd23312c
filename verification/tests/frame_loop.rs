use frame_sync::command::ClearColor;
use frame_sync::error::FrameError;
use frame_sync::events::{Key, WindowEvent};
use frame_sync::renderer::{
    AcquireOutcome, FrameConfig, FrameRenderer, LoopDecision, Phase, PipelineStage,
    PresentOutcome, WaitOutcome,
};

fn demo_config() -> FrameConfig {
    FrameConfig {
        width: 500,
        height: 500,
        vertex_count: 2,
        push_constant: 50,
        clear: ClearColor { r: 1, g: 1, b: 1, a: 1 },
        framebuffer_count: 2,
    }
}

/// A single frame with the fixed 500x500 viewport, 2 vertices and clear
/// color [1,1,1,1]: after present the fence reports signaled and the pool
/// reports exactly one buffer recorded since its last reset.
#[test]
fn single_frame_signals_fence_and_records_one_buffer() {
    let mut r = FrameRenderer::new(demo_config());
    assert_eq!(r.next_step(), LoopDecision::RenderFrame);

    r.begin_frame();
    assert!(!r.fence.signaled);

    assert!(r.frame_acquired(AcquireOutcome::Acquired { frame_index: 0 }).is_ok());
    r.record_frame();
    let s = r.submit_frame();
    assert_eq!(s.wait_stage, PipelineStage::BottomOfPipe);
    assert!(s.signals_fence);
    assert_eq!(s.frame_index, 0);

    assert!(r.fence_waited(WaitOutcome::Signaled).is_ok());
    assert!(r.present_frame(PresentOutcome::Presented).is_ok());

    assert_eq!(r.phase, Phase::Presented);
    assert!(r.fence.signaled);
    assert_eq!(r.pool.recorded, 1);

    r.next_frame();
    assert_eq!(r.phase, Phase::Idle);
    assert_eq!(r.frames_completed, 1);
}

/// An escape key delivered while a frame is in flight: the host holds the
/// event until the frame boundary, the in-flight frame still completes its
/// wait and present, and only then does the loop decide to stop.
#[test]
fn escape_mid_loop_stops_only_after_frame_completes() {
    let mut r = FrameRenderer::new(demo_config());
    r.begin_frame();
    assert!(r.frame_acquired(AcquireOutcome::Acquired { frame_index: 1 }).is_ok());
    r.record_frame();
    let _submission = r.submit_frame();

    // The escape key arrives here, mid-loop; events are only polled between
    // frames, so the frame first completes its wait and present.
    let pending = WindowEvent::KeyPressed { key: Key::Escape };

    assert!(r.fence_waited(WaitOutcome::Signaled).is_ok());
    assert!(r.present_frame(PresentOutcome::Presented).is_ok());
    r.next_frame();

    r.poll_event(pending);
    assert_eq!(r.next_step(), LoopDecision::Stop);
    assert_eq!(r.frames_completed, 1);
    assert_eq!(r.phase, Phase::Idle);
}

/// Three consecutive iterations: each resets the fence exactly once and
/// waits on it exactly once.
#[test]
fn three_frames_reset_and_wait_once_each() {
    let mut r = FrameRenderer::new(demo_config());
    for k in 0..3usize {
        assert_eq!(r.next_step(), LoopDecision::RenderFrame);
        r.begin_frame();
        assert_eq!(r.resets_this_frame, 1);
        assert_eq!(r.waits_this_frame, 0);
        assert!(r.frame_acquired(AcquireOutcome::Acquired { frame_index: k % 2 }).is_ok());
        r.record_frame();
        let _submission = r.submit_frame();
        assert!(r.fence_waited(WaitOutcome::Signaled).is_ok());
        assert_eq!(r.resets_this_frame, 1);
        assert_eq!(r.waits_this_frame, 1);
        assert!(r.present_frame(PresentOutcome::Presented).is_ok());
        r.next_frame();
    }
    assert_eq!(r.frames_completed, 3);
}

/// Every submission, over several frames, waits at bottom-of-pipe.
#[test]
fn all_submissions_wait_at_bottom_of_pipe() {
    let mut r = FrameRenderer::new(demo_config());
    for _ in 0..4 {
        r.begin_frame();
        assert!(r.frame_acquired(AcquireOutcome::Acquired { frame_index: 0 }).is_ok());
        r.record_frame();
        let s = r.submit_frame();
        assert_eq!(s.wait_stage, PipelineStage::BottomOfPipe);
        assert!(r.fence_waited(WaitOutcome::Signaled).is_ok());
        assert!(r.present_frame(PresentOutcome::Presented).is_ok());
        r.next_frame();
    }
}

#[test]
fn acquire_out_of_date_abandons_frame() {
    let mut r = FrameRenderer::new(demo_config());
    r.begin_frame();
    let e = r.frame_acquired(AcquireOutcome::OutOfDate);
    assert_eq!(e, Err(FrameError::SurfaceOutOfDate));
    assert_eq!(r.phase, Phase::Idle);
    assert_eq!(r.frames_completed, 0);
}

#[test]
fn acquire_device_lost_abandons_frame() {
    let mut r = FrameRenderer::new(demo_config());
    r.begin_frame();
    let e = r.frame_acquired(AcquireOutcome::DeviceLost);
    assert_eq!(e, Err(FrameError::DeviceLost));
    assert_eq!(r.phase, Phase::Idle);
}

#[test]
fn fence_timeout_abandons_frame() {
    let mut r = FrameRenderer::new(demo_config());
    r.begin_frame();
    assert!(r.frame_acquired(AcquireOutcome::Acquired { frame_index: 0 }).is_ok());
    r.record_frame();
    let _submission = r.submit_frame();
    let e = r.fence_waited(WaitOutcome::TimedOut);
    assert_eq!(e, Err(FrameError::FenceTimeout));
    assert_eq!(r.phase, Phase::Idle);
    assert_eq!(r.frames_completed, 0);
}

#[test]
fn wait_device_lost_abandons_frame() {
    let mut r = FrameRenderer::new(demo_config());
    r.begin_frame();
    assert!(r.frame_acquired(AcquireOutcome::Acquired { frame_index: 0 }).is_ok());
    r.record_frame();
    let _submission = r.submit_frame();
    let e = r.fence_waited(WaitOutcome::DeviceLost);
    assert_eq!(e, Err(FrameError::DeviceLost));
    assert_eq!(r.phase, Phase::Idle);
}

#[test]
fn present_out_of_date_abandons_frame() {
    let mut r = FrameRenderer::new(demo_config());
    r.begin_frame();
    assert!(r.frame_acquired(AcquireOutcome::Acquired { frame_index: 0 }).is_ok());
    r.record_frame();
    let _submission = r.submit_frame();
    assert!(r.fence_waited(WaitOutcome::Signaled).is_ok());
    let e = r.present_frame(PresentOutcome::OutOfDate);
    assert_eq!(e, Err(FrameError::SurfaceOutOfDate));
    assert_eq!(r.phase, Phase::Idle);
}

#[test]
fn present_device_lost_abandons_frame() {
    let mut r = FrameRenderer::new(demo_config());
    r.begin_frame();
    assert!(r.frame_acquired(AcquireOutcome::Acquired { frame_index: 0 }).is_ok());
    r.record_frame();
    let _submission = r.submit_frame();
    assert!(r.fence_waited(WaitOutcome::Signaled).is_ok());
    let e = r.present_frame(PresentOutcome::DeviceLost);
    assert_eq!(e, Err(FrameError::DeviceLost));
    assert_eq!(r.phase, Phase::Idle);
}

#[test]
fn close_request_stops_the_loop() {
    let mut r = FrameRenderer::new(demo_config());
    r.poll_event(WindowEvent::CloseRequested);
    assert_eq!(r.next_step(), LoopDecision::Stop);
}

#[test]
fn other_events_do_not_stop_the_loop() {
    let mut r = FrameRenderer::new(demo_config());
    r.poll_event(WindowEvent::Other);
    r.poll_event(WindowEvent::KeyPressed { key: Key::Other });
    assert_eq!(r.next_step(), LoopDecision::RenderFrame);
}

#[test]
fn escape_in_an_event_batch_stops_the_loop() {
    let mut r = FrameRenderer::new(demo_config());
    let events = vec![
        WindowEvent::Other,
        WindowEvent::KeyPressed { key: Key::Escape },
        WindowEvent::Other,
    ];
    r.poll_events(&events);
    assert_eq!(r.next_step(), LoopDecision::Stop);
}

#[test]
fn empty_event_batch_changes_nothing() {
    let mut r = FrameRenderer::new(demo_config());
    let events: Vec<WindowEvent> = vec![];
    r.poll_events(&events);
    assert_eq!(r.next_step(), LoopDecision::RenderFrame);
}

/// A single-framebuffer swapchain works: index 0 is the only legal frame.
#[test]
fn single_framebuffer_swapchain() {
    let mut cfg = demo_config();
    cfg.framebuffer_count = 1;
    let mut r = FrameRenderer::new(cfg);
    r.begin_frame();
    assert!(r.frame_acquired(AcquireOutcome::Acquired { frame_index: 0 }).is_ok());
    r.record_frame();
    let _submission = r.submit_frame();
    assert!(r.fence_waited(WaitOutcome::Signaled).is_ok());
    assert!(r.present_frame(PresentOutcome::Presented).is_ok());
    r.next_frame();
    assert_eq!(r.frames_completed, 1);
}
