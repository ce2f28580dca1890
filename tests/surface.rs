use learn1::config::{ConfigError, PresentMode, SurfaceConfig};
use learn1::context::{frame_outcome, FrameOutcome, SurfaceContext, SurfaceError, TransientCause};
use learn1::driver::{Action, FrameDriver, WindowEvent};
use learn1::resize::PendingResize;
use learn1::size::Size;

fn context(width: u32, height: u32) -> SurfaceContext<u32, u8> {
    SurfaceContext::new(&vec![30, 31], &vec![5, 6], Size::new(width, height)).unwrap()
}

fn running(width: u32, height: u32) -> FrameDriver<u32, u8> {
    let mut driver = FrameDriver::new();
    assert!(driver.install(context(width, height)));
    driver
}

fn render_size(action: Action<u32, u8>) -> Option<Size> {
    match action {
        Action::Render(Some(c)) => Some(c.size),
        Action::Render(None) => None,
        other => panic!("expected a render action, got {:?}", other),
    }
}

#[test]
fn size_clamps_zero_dimensions() {
    assert_eq!(Size::new(0, 0).clamped(), Size::new(1, 1));
    assert_eq!(Size::new(0, 7).clamped(), Size::new(1, 7));
    assert_eq!(Size::new(9, 0).clamped(), Size::new(9, 1));
    assert_eq!(Size::new(800, 600).clamped(), Size::new(800, 600));
    assert!(!Size::new(0, 5).is_nonzero());
    assert!(Size::new(1, 1).is_nonzero());
}

#[test]
fn config_takes_first_capabilities() {
    let c = SurfaceConfig::from_capabilities(&vec![30u32, 31], &vec![5u8, 6], Size::new(800, 600)).unwrap();
    assert_eq!(c.format, 30);
    assert_eq!(c.alpha_mode, 5);
    assert_eq!(c.size, Size::new(800, 600));
    assert_eq!(c.present_mode, PresentMode::Fifo);
    let r = c.resized(Size::new(10, 20));
    assert_eq!(r.present_mode, PresentMode::Fifo);
    assert_eq!(r.size, Size::new(10, 20));
    assert_eq!(r.format, 30);
    assert_eq!(r.alpha_mode, 5);
}

#[test]
fn config_errors_on_empty_capabilities() {
    let none: Vec<u32> = vec![];
    let r = SurfaceConfig::from_capabilities(&none, &vec![5u8], Size::new(8, 8));
    assert_eq!(r.unwrap_err(), ConfigError::NoFormat);
    let no_alpha: Vec<u8> = vec![];
    let r = SurfaceConfig::from_capabilities(&vec![1u32], &no_alpha, Size::new(8, 8));
    assert_eq!(r.unwrap_err(), ConfigError::NoAlphaMode);
    assert!(matches!(SurfaceContext::new(&none, &no_alpha, Size::new(8, 8)), Err(ConfigError::NoFormat)));
}

#[test]
fn zero_window_configures_one_by_one() {
    let c = context(0, 0);
    assert_eq!(c.config.size, Size::new(1, 1));
    assert_eq!(c.pending.size, Size::new(1, 1));
    assert!(!c.pending.dirty);
}

#[test]
fn pending_resize_coalesces_and_takes_once() {
    let mut p = PendingResize::new(Size::new(800, 600));
    assert_eq!(p.take_if_dirty(), None);
    p.note_resize(Size::new(800, 600));
    assert!(!p.dirty);
    p.note_resize(Size::new(100, 100));
    p.note_resize(Size::new(200, 150));
    assert_eq!(p.take_if_dirty(), Some(Size::new(200, 150)));
    assert_eq!(p.take_if_dirty(), None);
    p.note_resize(Size::new(0, 40));
    assert_eq!(p.size, Size::new(0, 40));
    assert!(p.dirty);
    assert_eq!(p.take_if_dirty(), Some(Size::new(0, 40)));
}

#[test]
fn zero_dimension_request_is_clamped_when_applied() {
    let mut c = context(800, 600);
    c.note_resize(Size::new(0, 300));
    assert_eq!(c.pending.size, Size::new(0, 300));
    assert!(c.pending.dirty);
    assert_eq!(c.config.size, Size::new(800, 600));
    let applied = c.begin_frame().unwrap();
    assert_eq!(applied.size, Size::new(1, 300));
    assert_eq!(c.config.size, Size::new(1, 300));
    assert_eq!(c.finish_frame(Ok(())), FrameOutcome::Presented);
    c.note_resize(Size::new(1, 300));
    assert!(c.begin_frame().is_none());
}

#[test]
fn resume_twice_builds_one_context() {
    let mut driver: FrameDriver<u32, u8> = FrameDriver::new();
    assert!(driver.needs_context());
    assert!(driver.install(context(800, 600)));
    assert!(!driver.needs_context());
    assert!(!driver.install(context(10, 10)));
    assert!(driver.is_running());
    assert_eq!(driver.current_config().unwrap().size, Size::new(800, 600));
}

#[test]
fn resize_notifications_apply_once() {
    let mut driver = running(800, 600);
    for (w, h) in [(100, 100), (100, 100), (200, 150)] {
        assert!(matches!(driver.handle_event(WindowEvent::Resized(Size::new(w, h))), Action::Nothing));
    }
    let applied = render_size(driver.handle_event(WindowEvent::RedrawRequested));
    assert_eq!(applied, Some(Size::new(200, 150)));
    assert_eq!(driver.finish_frame(Ok(())), FrameOutcome::Presented);
    assert_eq!(render_size(driver.handle_event(WindowEvent::RedrawRequested)), None);
    assert_eq!(driver.current_config().unwrap().size, Size::new(200, 150));
}

#[test]
fn zero_area_resize_leaves_configuration() {
    let mut driver = running(640, 480);
    driver.handle_event(WindowEvent::Resized(Size::new(0, 300)));
    driver.handle_event(WindowEvent::Resized(Size::new(300, 0)));
    assert_eq!(render_size(driver.handle_event(WindowEvent::RedrawRequested)), None);
    assert_eq!(driver.current_config().unwrap().size, Size::new(640, 480));
}

#[test]
fn resize_during_frame_waits_for_next_frame() {
    let mut driver = running(640, 480);
    assert_eq!(render_size(driver.handle_event(WindowEvent::RedrawRequested)), None);
    driver.handle_event(WindowEvent::Resized(Size::new(320, 240)));
    assert_eq!(driver.current_config().unwrap().size, Size::new(640, 480));
    // a redraw while the frame is still open starts nothing
    assert!(matches!(driver.handle_event(WindowEvent::RedrawRequested), Action::Nothing));
    assert_eq!(driver.finish_frame(Ok(())), FrameOutcome::Presented);
    assert_eq!(driver.current_config().unwrap().size, Size::new(640, 480));
    assert_eq!(render_size(driver.handle_event(WindowEvent::RedrawRequested)), Some(Size::new(320, 240)));
    assert_eq!(driver.current_config().unwrap().size, Size::new(320, 240));
}

#[test]
fn resize_back_to_configured_size_does_not_reconfigure() {
    let mut driver = running(800, 600);
    driver.handle_event(WindowEvent::Resized(Size::new(400, 300)));
    driver.handle_event(WindowEvent::Resized(Size::new(800, 600)));
    assert_eq!(render_size(driver.handle_event(WindowEvent::RedrawRequested)), None);
}

#[test]
fn first_frame_presents_at_window_size() {
    let mut driver: FrameDriver<u32, u8> = FrameDriver::new();
    assert!(matches!(driver.handle_event(WindowEvent::RedrawRequested), Action::Nothing));
    assert!(driver.needs_context());
    assert!(driver.install(context(800, 600)));
    assert_eq!(render_size(driver.handle_event(WindowEvent::RedrawRequested)), None);
    assert_eq!(driver.current_config().unwrap().size, Size::new(800, 600));
    assert_eq!(driver.finish_frame(Ok(())), FrameOutcome::Presented);
    assert!(driver.is_running());
}

#[test]
fn resize_then_redraw_reconfigures_before_acquiring() {
    let mut driver = running(800, 600);
    driver.handle_event(WindowEvent::Resized(Size::new(400, 300)));
    let c = match driver.handle_event(WindowEvent::RedrawRequested) {
        Action::Render(Some(c)) => c,
        other => panic!("expected a reconfiguration, got {:?}", other),
    };
    assert_eq!(c.size, Size::new(400, 300));
    assert_eq!(c.format, 30);
    assert_eq!(c.alpha_mode, 5);
    assert_eq!(driver.finish_frame(Ok(())), FrameOutcome::Presented);
}

#[test]
fn lost_surface_is_not_fatal() {
    let mut driver = running(800, 600);
    driver.handle_event(WindowEvent::Resized(Size::new(400, 300)));
    assert_eq!(render_size(driver.handle_event(WindowEvent::RedrawRequested)), Some(Size::new(400, 300)));
    assert_eq!(driver.finish_frame(Err(SurfaceError::Lost)), FrameOutcome::Lost);
    assert!(driver.is_running());
    assert_eq!(driver.current_config().unwrap().size, Size::new(400, 300));
    assert_eq!(render_size(driver.handle_event(WindowEvent::RedrawRequested)), None);
    assert_eq!(driver.finish_frame(Ok(())), FrameOutcome::Presented);
}

#[test]
fn transient_errors_skip_the_frame() {
    let mut driver = running(800, 600);
    driver.handle_event(WindowEvent::RedrawRequested);
    let r = driver.finish_frame(Err(SurfaceError::Transient(TransientCause::Timeout)));
    assert_eq!(r, FrameOutcome::Skipped(TransientCause::Timeout));
    assert!(driver.is_running());
    assert_eq!(frame_outcome(Err(SurfaceError::Transient(TransientCause::Outdated))), FrameOutcome::Skipped(TransientCause::Outdated));
}

#[test]
fn close_request_terminates() {
    let mut driver = running(800, 600);
    assert!(matches!(driver.handle_event(WindowEvent::Other), Action::Nothing));
    assert!(matches!(driver.handle_event(WindowEvent::CloseRequested), Action::Exit));
    assert!(driver.is_terminated());
    assert!(matches!(driver.handle_event(WindowEvent::RedrawRequested), Action::Nothing));
    assert!(matches!(driver.handle_event(WindowEvent::CloseRequested), Action::Nothing));
    assert!(!driver.install(context(5, 5)));
    assert!(driver.current_config().is_none());
}
