//! The session: aggregate owner of the two window contexts, the UI
//! binding and the two renderers, and the router that takes each
//! platform event to exactly one decision — consume, exit, resize,
//! render, or ignore.
//!
//! The shell that owns the event loop converts each platform event to a
//! `WindowEvent`, asks the UI subsystem first whether it consumed an
//! event aimed at the control window, and hands both to `update`; it
//! then performs the GPU-side effects the updated state calls for.

use vstd::prelude::*;

use crate::gpu::GpuContextError;
use crate::gui::GuiContext;
use crate::render::RenderError;
use crate::render::Renderer;
use crate::window::WindowContext;
use crate::window::WindowContextError;
use crate::window::WindowId;
use crate::window::resize_applies;

verus! {

/// The kinds of per-window platform event the session reads, each
/// tagged by the shell with the window it is aimed at.
#[derive(Clone, Copy, Debug, PartialEq, Eq, Structural)]
pub enum WindowEvent {
    CloseRequested,
    Resized { width: u32, height: u32 },
    RedrawRequested,
    /// Any event the session applies no handling of its own to.
    Other,
}

/// The high-level action a session hands back to the event-loop
/// collaborator, which decides process-level consequences.
#[derive(Clone, Copy, Debug, PartialEq, Eq, Structural)]
pub enum SessionAction {
    Exit,
}

/// Failures a session reports: construction failures, attributed to the
/// window or subsystem that failed, and per-frame render failures,
/// attributed to the window whose renderer failed. Render failures do
/// not end the session.
#[derive(Clone, Debug, PartialEq, Eq)]
pub enum SessionError {
    InitViewWindow(WindowContextError),
    InitControlWindow(WindowContextError),
    InitGpu(GpuContextError),
    RenderView(RenderError),
    RenderControl(RenderError),
}

/// The decision the router takes for one event.
#[derive(Clone, Copy, Debug, PartialEq, Eq, Structural)]
pub enum Dispatch {
    /// The UI subsystem consumed the event; no further handling.
    GuiConsumed,
    /// End the whole session.
    Exit,
    ResizeView { width: u32, height: u32 },
    ResizeControl { width: u32, height: u32 },
    RenderView,
    RenderControl,
    Ignore,
}

/// The event-ownership and dispatch rule of the session. The UI
/// subsystem has first right of refusal on every event aimed at the
/// control window; past that, a close request from either window ends
/// the session, while resize and redraw requests go to the window they
/// are aimed at.
pub open spec fn route_spec(
    view: WindowId,
    control: WindowId,
    id: WindowId,
    gui_consumed: bool,
    event: WindowEvent,
) -> Dispatch {
    if id == control && gui_consumed {
        Dispatch::GuiConsumed
    } else {
        match event {
            WindowEvent::CloseRequested => Dispatch::Exit,
            WindowEvent::Resized { width, height } => if id == view {
                Dispatch::ResizeView { width, height }
            } else if id == control {
                Dispatch::ResizeControl { width, height }
            } else {
                Dispatch::Ignore
            },
            WindowEvent::RedrawRequested => if id == view {
                Dispatch::RenderView
            } else if id == control {
                Dispatch::RenderControl
            } else {
                Dispatch::Ignore
            },
            WindowEvent::Other => Dispatch::Ignore,
        }
    }
}

/// Takes one event to its dispatch decision.
pub fn route(
    view: WindowId,
    control: WindowId,
    id: WindowId,
    gui_consumed: bool,
    event: WindowEvent,
) -> (d: Dispatch)
    ensures
        d == route_spec(view, control, id, gui_consumed, event),
{
    if id == control && gui_consumed {
        Dispatch::GuiConsumed
    } else {
        match event {
            WindowEvent::CloseRequested => Dispatch::Exit,
            WindowEvent::Resized { width, height } => if id == view {
                Dispatch::ResizeView { width, height }
            } else if id == control {
                Dispatch::ResizeControl { width, height }
            } else {
                Dispatch::Ignore
            },
            WindowEvent::RedrawRequested => if id == view {
                Dispatch::RenderView
            } else if id == control {
                Dispatch::RenderControl
            } else {
                Dispatch::Ignore
            },
            WindowEvent::Other => Dispatch::Ignore,
        }
    }
}

/// Main application state orchestrating the GPU and windows: the main
/// visual output (`view`), the control panel (`control`), the UI
/// binding, and one renderer permanently paired with each window.
pub struct Session<V: Renderer, C: Renderer> {
    /// Main visual output.
    pub view: WindowContext,
    /// Controls, graphs, and parameters.
    pub control: WindowContext,
    /// UI logic attached strictly to the control window.
    pub gui: GuiContext,
    pub view_renderer: V,
    pub control_renderer: C,
}

impl<V: Renderer, C: Renderer> Session<V, C> {
    /// The session's invariant: both window contexts are well formed,
    /// the two windows are distinct, and the UI binding is to the
    /// control window at the control surface's configured format, with
    /// single-sample output.
    pub open spec fn wf(self) -> bool {
        &&& self.view.wf()
        &&& self.control.wf()
        &&& self.view.id != self.control.id
        &&& self.gui.window == self.control.id
        &&& self.gui.output_format == self.control.config.format
        &&& self.gui.msaa_samples == 1
    }

    /// Assembles a session from the two configured window contexts and
    /// the two renderers, binding the UI subsystem to the control
    /// window at its configured format. The window contexts must
    /// already be configured — the control window must be known before
    /// the UI binding can be made.
    pub fn try_new(
        view: WindowContext,
        control: WindowContext,
        view_renderer: V,
        control_renderer: C,
    ) -> (s: Session<V, C>)
        requires
            view.wf(),
            control.wf(),
            view.id != control.id,
        ensures
            s.wf(),
            s.view == view,
            s.control == control,
            s.gui == (GuiContext {
                window: control.id,
                output_format: control.config.format,
                msaa_samples: 1,
            }),
            s.view_renderer == view_renderer,
            s.control_renderer == control_renderer,
    {
        let gui = GuiContext::new(control.id, control.config.format);
        Session { view, control, gui, view_renderer, control_renderer }
    }

    /// Dispatches one platform event. `gui_consumed` is the UI
    /// subsystem's answer for this event; the router reads it only when
    /// the event is aimed at the control window.
    ///
    /// Exactly the decision `route_spec` takes is acted on: a consumed
    /// event changes nothing, a close request yields `Exit`, a resize
    /// reaches only the window it is aimed at, a redraw invokes only
    /// that window's own renderer, and a render failure is reported
    /// attributed to its window without unwinding the session.
    pub fn update(
        &mut self,
        window_id: WindowId,
        event: WindowEvent,
        gui_consumed: bool,
    ) -> (r: Result<Option<SessionAction>, SessionError>)
        requires
            old(self).wf(),
        ensures
            final(self).wf(),
            final(self).view.id == old(self).view.id,
            final(self).control.id == old(self).control.id,
            final(self).gui == old(self).gui,
            ({
                let d = route_spec(
                    old(self).view.id,
                    old(self).control.id,
                    window_id,
                    gui_consumed,
                    event,
                );
                &&& (d == Dispatch::GuiConsumed ==> {
                    &&& r == Ok::<Option<SessionAction>, SessionError>(None)
                    &&& final(self).view == old(self).view
                    &&& final(self).control == old(self).control
                    &&& final(self).view_renderer == old(self).view_renderer
                    &&& final(self).control_renderer == old(self).control_renderer
                })
                &&& (d == Dispatch::Exit ==> {
                    &&& r == Ok::<Option<SessionAction>, SessionError>(Some(SessionAction::Exit))
                    &&& final(self).view == old(self).view
                    &&& final(self).control == old(self).control
                    &&& final(self).view_renderer == old(self).view_renderer
                    &&& final(self).control_renderer == old(self).control_renderer
                })
                &&& (d matches Dispatch::ResizeView { width, height } ==> {
                    &&& resize_applies(old(self).view, final(self).view, width, height)
                    &&& final(self).control == old(self).control
                    &&& final(self).view_renderer == old(self).view_renderer
                    &&& final(self).control_renderer == old(self).control_renderer
                    &&& r == Ok::<Option<SessionAction>, SessionError>(None)
                })
                &&& (d matches Dispatch::ResizeControl { width, height } ==> {
                    &&& resize_applies(old(self).control, final(self).control, width, height)
                    &&& final(self).view == old(self).view
                    &&& final(self).view_renderer == old(self).view_renderer
                    &&& final(self).control_renderer == old(self).control_renderer
                    &&& r == Ok::<Option<SessionAction>, SessionError>(None)
                })
                &&& (d == Dispatch::RenderView ==> {
                    &&& final(self).view == old(self).view
                    &&& final(self).control == old(self).control
                    &&& final(self).control_renderer == old(self).control_renderer
                    &&& (r == Ok::<Option<SessionAction>, SessionError>(None) || r matches Err(
                        SessionError::RenderView(_),
                    ))
                })
                &&& (d == Dispatch::RenderControl ==> {
                    &&& final(self).view == old(self).view
                    &&& final(self).control == old(self).control
                    &&& final(self).view_renderer == old(self).view_renderer
                    &&& (r == Ok::<Option<SessionAction>, SessionError>(None) || r matches Err(
                        SessionError::RenderControl(_),
                    ))
                })
                &&& (d == Dispatch::Ignore ==> {
                    &&& r == Ok::<Option<SessionAction>, SessionError>(None)
                    &&& final(self).view == old(self).view
                    &&& final(self).control == old(self).control
                    &&& final(self).view_renderer == old(self).view_renderer
                    &&& final(self).control_renderer == old(self).control_renderer
                })
            }),
    {
        let d = route(self.view.id, self.control.id, window_id, gui_consumed, event);
        match d {
            Dispatch::GuiConsumed => Ok(None),
            Dispatch::Exit => Ok(Some(SessionAction::Exit)),
            Dispatch::ResizeView { width, height } => {
                self.view.resize(width, height);
                Ok(None)
            },
            Dispatch::ResizeControl { width, height } => {
                self.control.resize(width, height);
                Ok(None)
            },
            Dispatch::RenderView => match self.render_view() {
                Ok(()) => Ok(None),
                Err(e) => Err(SessionError::RenderView(e)),
            },
            Dispatch::RenderControl => match self.render_control() {
                Ok(()) => Ok(None),
                Err(e) => Err(SessionError::RenderControl(e)),
            },
            Dispatch::Ignore => Ok(None),
        }
    }

    /// Hands the view window to its own renderer.
    fn render_view(&mut self) -> (r: Result<(), RenderError>)
        ensures
            final(self).view == old(self).view,
            final(self).control == old(self).control,
            final(self).gui == old(self).gui,
            final(self).control_renderer == old(self).control_renderer,
    {
        self.view_renderer.render(&self.view)
    }

    /// Hands the control window to its own renderer.
    fn render_control(&mut self) -> (r: Result<(), RenderError>)
        ensures
            final(self).view == old(self).view,
            final(self).control == old(self).control,
            final(self).gui == old(self).gui,
            final(self).view_renderer == old(self).view_renderer,
    {
        self.control_renderer.render(&self.control)
    }
}

/// The lifecycle of the shell that owns a session: not yet initialized,
/// holding an active session, or terminated.
#[derive(Clone, Copy, Debug, PartialEq, Eq, Structural)]
pub enum Phase {
    Uninitialized,
    Active,
    Terminated,
}

/// Whether a ready/resumed signal from the host event system should
/// initialize a session: only before one exists. A repeated ready
/// signal while a session is active is a no-op.
pub fn should_initialize(phase: Phase) -> (r: bool)
    ensures
        r == (phase is Uninitialized),
{
    match phase {
        Phase::Uninitialized => true,
        Phase::Active => false,
        Phase::Terminated => false,
    }
}

/// The shell's phase after a session action: `Exit` terminates, no
/// action leaves the phase as it is.
pub open spec fn phase_after_spec(phase: Phase, action: Option<SessionAction>) -> Phase {
    match action {
        Some(SessionAction::Exit) => Phase::Terminated,
        None => phase,
    }
}

/// Applies a session action to the shell's phase.
pub fn phase_after(phase: Phase, action: Option<SessionAction>) -> (next: Phase)
    ensures
        next == phase_after_spec(phase, action),
{
    match action {
        Some(SessionAction::Exit) => Phase::Terminated,
        None => phase,
    }
}

/// Law: a close request on the view window, or on the control window
/// when the UI subsystem did not consume it, routes to session exit.
pub proof fn lemma_close_requested_exits(
    view: WindowId,
    control: WindowId,
    id: WindowId,
    gui_consumed: bool,
)
    requires
        id == view || id == control,
        id == control ==> !gui_consumed,
    ensures
        route_spec(view, control, id, gui_consumed, WindowEvent::CloseRequested) == Dispatch::Exit,
{
}

/// Law: an event aimed at the control window that the UI subsystem
/// reports as consumed never reaches the window-kind dispatch —
/// whatever the event, it routes to `GuiConsumed`, on which `update`
/// changes nothing and returns no action.
pub proof fn lemma_consumed_event_reaches_no_dispatch(
    view: WindowId,
    control: WindowId,
    event: WindowEvent,
)
    ensures
        route_spec(view, control, control, true, event) == Dispatch::GuiConsumed,
{
}

/// Law: a redraw request is dispatched to the renderer of its own
/// window and never cross-dispatched: the view window routes to the
/// view renderer only, the control window to the control renderer only,
/// whatever order such requests come in.
pub proof fn lemma_redraw_routes_to_own_renderer(
    view: WindowId,
    control: WindowId,
    gui_consumed: bool,
)
    requires
        view != control,
    ensures
        route_spec(view, control, view, gui_consumed, WindowEvent::RedrawRequested)
            == Dispatch::RenderView,
        !gui_consumed ==> route_spec(view, control, control, gui_consumed,
        WindowEvent::RedrawRequested) == Dispatch::RenderControl,
        route_spec(view, control, view, gui_consumed, WindowEvent::RedrawRequested)
            != Dispatch::RenderControl,
        route_spec(view, control, control, gui_consumed, WindowEvent::RedrawRequested)
            != Dispatch::RenderView,
{
}

} // verus!
