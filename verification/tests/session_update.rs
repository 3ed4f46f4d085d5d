use qualia::AlphaMode;
use qualia::GpuContextError;
use qualia::Phase;
use qualia::RenderError;
use qualia::Renderer;
use qualia::Session;
use qualia::SessionAction;
use qualia::SessionError;
use qualia::SurfaceCaps;
use qualia::SurfaceError;
use qualia::SurfaceFormat;
use qualia::WindowContext;
use qualia::WindowContextError;
use qualia::WindowEvent;
use qualia::WindowId;
use qualia::phase_after;
use qualia::should_initialize;

struct CountingRenderer {
    calls: usize,
    fail_with: Option<SurfaceError>,
}

impl CountingRenderer {
    fn ok() -> CountingRenderer {
        CountingRenderer { calls: 0, fail_with: None }
    }

    fn failing(e: SurfaceError) -> CountingRenderer {
        CountingRenderer { calls: 0, fail_with: Some(e) }
    }
}

impl Renderer for CountingRenderer {
    fn render(&mut self, _target: &WindowContext) -> Result<(), RenderError> {
        self.calls += 1;
        match self.fail_with {
            Some(e) => Err(RenderError::GetFrame(e)),
            None => Ok(()),
        }
    }
}

const VIEW: WindowId = WindowId(1);
const CONTROL: WindowId = WindowId(2);

fn window(id: WindowId, width: u32, height: u32) -> WindowContext {
    let caps = SurfaceCaps {
        formats: vec![
            SurfaceFormat { code: 1, srgb: false },
            SurfaceFormat { code: 2, srgb: true },
        ],
        alpha_modes: vec![AlphaMode::Opaque],
    };
    WindowContext::from_raw(id, caps, width, height)
}

fn session() -> Session<CountingRenderer, CountingRenderer> {
    Session::try_new(
        window(VIEW, 800, 600),
        window(CONTROL, 800, 600),
        CountingRenderer::ok(),
        CountingRenderer::ok(),
    )
}

#[test]
fn session_binds_gui_to_control_window() {
    let s = session();
    assert_eq!(s.gui.window, CONTROL);
    assert_eq!(s.gui.output_format, s.control.config.format);
    assert_eq!(s.gui.msaa_samples, 1);
}

#[test]
fn close_on_view_window_yields_exit() {
    let mut s = session();
    let r = s.update(VIEW, WindowEvent::CloseRequested, false);
    assert_eq!(r, Ok(Some(SessionAction::Exit)));
}

#[test]
fn close_on_control_window_yields_exit() {
    let mut s = session();
    let r = s.update(CONTROL, WindowEvent::CloseRequested, false);
    assert_eq!(r, Ok(Some(SessionAction::Exit)));
}

#[test]
fn consumed_control_event_has_no_side_effect() {
    let mut s = session();
    let before_control = s.control.clone();
    let before_view = s.view.clone();

    let r = s.update(CONTROL, WindowEvent::Resized { width: 1024, height: 768 }, true);
    assert_eq!(r, Ok(None));
    assert_eq!(s.control, before_control);
    assert_eq!(s.view, before_view);
    assert_eq!(s.view_renderer.calls, 0);
    assert_eq!(s.control_renderer.calls, 0);

    let r = s.update(CONTROL, WindowEvent::RedrawRequested, true);
    assert_eq!(r, Ok(None));
    assert_eq!(s.view_renderer.calls, 0);
    assert_eq!(s.control_renderer.calls, 0);

    let r = s.update(CONTROL, WindowEvent::CloseRequested, true);
    assert_eq!(r, Ok(None));
}

#[test]
fn consumption_does_not_shield_the_view_window() {
    let mut s = session();
    let r = s.update(VIEW, WindowEvent::Resized { width: 640, height: 480 }, true);
    assert_eq!(r, Ok(None));
    assert_eq!(s.view.config.width, 640);
    assert_eq!(s.view.config.height, 480);
}

#[test]
fn resize_routes_to_the_window_it_names() {
    let mut s = session();

    let r = s.update(VIEW, WindowEvent::Resized { width: 1280, height: 720 }, false);
    assert_eq!(r, Ok(None));
    assert_eq!(s.view.config.width, 1280);
    assert_eq!(s.view.config.height, 720);
    assert_eq!(s.control.config.width, 800);
    assert_eq!(s.control.config.height, 600);

    let r = s.update(CONTROL, WindowEvent::Resized { width: 300, height: 900 }, false);
    assert_eq!(r, Ok(None));
    assert_eq!(s.control.config.width, 300);
    assert_eq!(s.control.config.height, 900);
    assert_eq!(s.view.config.width, 1280);
}

#[test]
fn resize_for_unknown_window_changes_nothing() {
    let mut s = session();
    let before_view = s.view.clone();
    let before_control = s.control.clone();
    let r = s.update(WindowId(99), WindowEvent::Resized { width: 5, height: 5 }, false);
    assert_eq!(r, Ok(None));
    assert_eq!(s.view, before_view);
    assert_eq!(s.control, before_control);
}

#[test]
fn redraw_invokes_only_the_matching_renderer() {
    let mut s = session();

    let r = s.update(VIEW, WindowEvent::RedrawRequested, false);
    assert_eq!(r, Ok(None));
    assert_eq!(s.view_renderer.calls, 1);
    assert_eq!(s.control_renderer.calls, 0);

    let r = s.update(CONTROL, WindowEvent::RedrawRequested, false);
    assert_eq!(r, Ok(None));
    assert_eq!(s.view_renderer.calls, 1);
    assert_eq!(s.control_renderer.calls, 1);

    let r = s.update(VIEW, WindowEvent::RedrawRequested, false);
    assert_eq!(r, Ok(None));
    assert_eq!(s.view_renderer.calls, 2);
    assert_eq!(s.control_renderer.calls, 1);
}

#[test]
fn render_failure_is_attributed_to_the_view_window() {
    let mut s = Session::try_new(
        window(VIEW, 800, 600),
        window(CONTROL, 800, 600),
        CountingRenderer::failing(SurfaceError::Lost),
        CountingRenderer::ok(),
    );
    let r = s.update(VIEW, WindowEvent::RedrawRequested, false);
    assert_eq!(r, Err(SessionError::RenderView(RenderError::GetFrame(SurfaceError::Lost))));
    assert_eq!(s.view_renderer.calls, 1);
    assert_eq!(s.control_renderer.calls, 0);
}

#[test]
fn render_failure_is_attributed_to_the_control_window() {
    let mut s = Session::try_new(
        window(VIEW, 800, 600),
        window(CONTROL, 800, 600),
        CountingRenderer::ok(),
        CountingRenderer::failing(SurfaceError::Outdated),
    );
    let r = s.update(CONTROL, WindowEvent::RedrawRequested, false);
    assert_eq!(r, Err(SessionError::RenderControl(RenderError::GetFrame(SurfaceError::Outdated))));
    assert_eq!(s.control_renderer.calls, 1);
    assert_eq!(s.view_renderer.calls, 0);
}

#[test]
fn other_events_are_ignored() {
    let mut s = session();
    let before_view = s.view.clone();
    let before_control = s.control.clone();
    let r = s.update(VIEW, WindowEvent::Other, false);
    assert_eq!(r, Ok(None));
    let r = s.update(CONTROL, WindowEvent::Other, false);
    assert_eq!(r, Ok(None));
    assert_eq!(s.view, before_view);
    assert_eq!(s.control, before_control);
    assert_eq!(s.view_renderer.calls, 0);
    assert_eq!(s.control_renderer.calls, 0);
}

#[test]
fn scenario_dual_window_resize_then_close() {
    let mut s = session();
    assert_eq!(s.view.config.width, 800);
    assert_eq!(s.view.config.height, 600);
    assert_eq!(s.control.config.width, 800);
    assert_eq!(s.control.config.height, 600);

    let r = s.update(VIEW, WindowEvent::Resized { width: 0, height: 0 }, false);
    assert_eq!(r, Ok(None));
    assert_eq!(s.view.config.width, 800);
    assert_eq!(s.view.config.height, 600);
    assert_eq!(s.view.generation, 1);

    let r = s.update(CONTROL, WindowEvent::Resized { width: 1024, height: 768 }, false);
    assert_eq!(r, Ok(None));
    assert_eq!(s.control.config.width, 1024);
    assert_eq!(s.control.config.height, 768);

    let r = s.update(VIEW, WindowEvent::CloseRequested, false);
    assert_eq!(r, Ok(Some(SessionAction::Exit)));
}

#[test]
fn ready_signal_initializes_only_once() {
    assert!(should_initialize(Phase::Uninitialized));
    assert!(!should_initialize(Phase::Active));
    assert!(!should_initialize(Phase::Terminated));
}

#[test]
fn exit_action_terminates_the_phase() {
    assert_eq!(phase_after(Phase::Active, Some(SessionAction::Exit)), Phase::Terminated);
    assert_eq!(phase_after(Phase::Active, None), Phase::Active);
    assert_eq!(phase_after(Phase::Uninitialized, None), Phase::Uninitialized);
}

#[test]
fn construction_errors_name_their_stage() {
    let view_err = SessionError::InitViewWindow(WindowContextError::CreateWindow(String::from(
        "no display",
    )));
    assert!(matches!(view_err, SessionError::InitViewWindow(WindowContextError::CreateWindow(_))));

    let control_err = SessionError::InitControlWindow(WindowContextError::CreateSurface(
        String::from("surface refused"),
    ));
    assert!(matches!(
        control_err,
        SessionError::InitControlWindow(WindowContextError::CreateSurface(_))
    ));

    let gpu_err = SessionError::InitGpu(GpuContextError::RequestAdapter(String::from(
        "no compatible adapter",
    )));
    assert!(matches!(gpu_err, SessionError::InitGpu(GpuContextError::RequestAdapter(_))));

    let device_err = SessionError::InitGpu(GpuContextError::RequestDevice(String::from(
        "device negotiation failed",
    )));
    assert!(matches!(device_err, SessionError::InitGpu(GpuContextError::RequestDevice(_))));
}
