use lyrebird_renderer::input::WindowEvent;
use lyrebird_renderer::runtime::{App, Phase, Runtime, Step};
use lyrebird_renderer::surface::{recovery_for, select_format, InitError, Recovery, State, SurfaceError};

fn running() -> App {
    let mut app = App::new();
    assert!(app.resumed());
    assert!(app.device_ready());
    app
}

#[test]
fn degenerate_sizes_leave_surface_not_ready() {
    let mut s = State::new(800, 600, &vec![false, true], 1, 1).unwrap();
    assert!(!s.is_surface_configured());
    assert!(!s.resize(0, 600));
    assert!(!s.is_surface_configured());
    assert!(!s.resize(800, 0));
    assert!(!s.is_surface_configured());
    assert!(s.resize(1024, 768));
    assert!(s.is_surface_configured());
    assert_eq!(s.config().width, 1024);
    assert_eq!(s.config().height, 768);
    let mut app = running();
    assert!(app.begin_frame(0, s.is_surface_configured()).render);
}

#[test]
fn resize_to_zero_after_ready_keeps_size() {
    let mut s = State::new(10, 10, &vec![true], 2, 3).unwrap();
    assert!(s.resize(40, 30));
    assert!(!s.resize(0, 0));
    assert!(!s.is_surface_configured());
    assert_eq!(s.config().width, 40);
    assert_eq!(s.config().height, 30);
}

#[test]
fn format_prefers_first_srgb() {
    assert_eq!(select_format(&vec![false, true, true]), 1);
    assert_eq!(select_format(&vec![false, false]), 0);
    assert_eq!(select_format(&vec![true]), 0);
    let s = State::new(1, 1, &vec![false, false, true], 1, 1).unwrap();
    assert_eq!(s.config().format, 2);
    assert_eq!(s.config().present_mode, 0);
    assert_eq!(s.config().alpha_mode, 0);
}

#[test]
fn negotiation_errors() {
    assert_eq!(State::new(1, 1, &Vec::new(), 1, 1).err(), Some(InitError::NoSurfaceFormat));
    assert_eq!(State::new(1, 1, &vec![true], 0, 1).err(), Some(InitError::NoPresentMode));
    assert_eq!(State::new(1, 1, &vec![true], 1, 0).err(), Some(InitError::NoAlphaMode));
}

#[test]
fn acquisition_recovery() {
    assert_eq!(recovery_for(SurfaceError::Lost), Recovery::Reconfigure);
    assert_eq!(recovery_for(SurfaceError::Outdated), Recovery::Reconfigure);
    assert_eq!(recovery_for(SurfaceError::Timeout), Recovery::ReportAndSkip);
    assert_eq!(recovery_for(SurfaceError::Occluded), Recovery::ReportAndSkip);
    assert_eq!(recovery_for(SurfaceError::Other), Recovery::ReportAndSkip);
}

#[test]
fn lifecycle_runs_through_all_phases() {
    let mut app = App::new();
    assert_eq!(app.phase(), Phase::Uninitialized);
    assert_eq!(app.window_event(&WindowEvent::RedrawRequested), Step::Ignore);
    assert!(!app.device_ready());
    assert!(app.resumed());
    assert_eq!(app.phase(), Phase::Negotiating);
    assert!(!app.resumed());
    assert!(app.device_ready());
    assert_eq!(app.phase(), Phase::Running);
    assert!(!app.device_ready());
    assert_eq!(app.window_event(&WindowEvent::MouseWheel {
        delta: lyrebird_renderer::input::ScrollDelta::Line(0, 0)
    }), Step::ForwardInput);
    assert_eq!(app.window_event(&WindowEvent::Resized { width: 3, height: 4 }), Step::Resize { width: 3, height: 4 });
    assert_eq!(app.window_event(&WindowEvent::RedrawRequested), Step::Frame);
    assert_eq!(app.window_event(&WindowEvent::Other), Step::Ignore);
    assert_eq!(app.window_event(&WindowEvent::CloseRequested), Step::Exit);
    assert_eq!(app.phase(), Phase::Exiting);
    assert_eq!(app.window_event(&WindowEvent::RedrawRequested), Step::Ignore);
    assert!(app.exiting());
    assert_eq!(app.phase(), Phase::Terminated);
    assert!(!app.exiting());
}

#[test]
fn exit_hook_not_run_before_start() {
    let mut app = App::new();
    assert!(!app.exiting());
    assert_eq!(app.phase(), Phase::Uninitialized);
}

#[test]
fn frame_time_is_between_frame_starts() {
    let mut app = running();
    let first = app.begin_frame(1_000, false);
    assert_eq!(first.dt_nanos, 0);
    assert!(!first.render);
    let second = app.begin_frame(17_000_000, true);
    assert_eq!(second.dt_nanos, 16_999_000);
    assert!(second.render);
    assert_eq!(app.begin_frame(5, true).dt_nanos, 0);
}

#[test]
fn hosted_runtime_constructs() {
    let _r = Runtime::new();
}
