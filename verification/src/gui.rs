//! The immediate-mode UI subsystem's binding, reduced to what the
//! session logic decides on: which window the UI is attached to and
//! which output format its draw renderer was built for. The UI widget
//! state, input translator and draw renderer themselves live with the
//! shell.

use vstd::prelude::*;

use crate::surface::SurfaceFormat;
use crate::window::WindowId;

verus! {

/// State required to render the GUI, bound 1:1 to the control window.
#[derive(Clone, Copy, Debug, PartialEq, Eq, Structural)]
pub struct GuiContext {
    /// The one window the UI subsystem is attached to.
    pub window: WindowId,
    /// The pixel format the UI draw renderer emits; must equal the
    /// control surface's configured format at construction time.
    pub output_format: SurfaceFormat,
    /// Sample count of the UI render target; single-sample output.
    pub msaa_samples: u32,
}

impl GuiContext {
    /// Binds the UI subsystem to one window and one output format, with
    /// single-sample (no multisampling) output.
    pub fn new(window: WindowId, output_format: SurfaceFormat) -> (g: GuiContext)
        ensures
            g.window == window,
            g.output_format == output_format,
            g.msaa_samples == 1,
    {
        GuiContext { window, output_format, msaa_samples: 1 }
    }
}

} // verus!
