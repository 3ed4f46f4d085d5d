//! The render-dispatch interface each window's renderer satisfies, and
//! its error surface. What a conforming renderer records is out of this
//! crate's scope; acquiring the next frame is the fallible step, and its
//! failures are the values of `SurfaceError`.

use vstd::prelude::*;

use crate::window::WindowContext;

verus! {

/// Ways acquiring the next presentable frame can fail. Transient
/// failures (a surface temporarily outdated during a resize race) are
/// expected under normal operation.
#[derive(Clone, Copy, Debug, PartialEq, Eq, Structural)]
pub enum SurfaceError {
    Timeout,
    Outdated,
    Lost,
    OutOfMemory,
    Other,
}

/// A renderer's error surface: frame acquisition failed.
#[derive(Clone, Copy, Debug, PartialEq, Eq, Structural)]
pub enum RenderError {
    GetFrame(SurfaceError),
}

impl core::convert::From<SurfaceError> for RenderError {
    /// Wraps a frame-acquisition failure.
    fn from(e: SurfaceError) -> (r: RenderError) {
        RenderError::GetFrame(e)
    }
}

impl vstd::std_specs::convert::FromSpecImpl<SurfaceError> for RenderError {
    open spec fn obeys_from_spec() -> bool {
        true
    }

    open spec fn from_spec(e: SurfaceError) -> RenderError {
        RenderError::GetFrame(e)
    }
}

/// The capability both window renderers implement: produce and present
/// one frame against the given target. A conforming implementation
/// acquires the next frame from the target's surface, records and
/// submits one command sequence, presents the frame, and requests the
/// window be redrawn again.
pub trait Renderer {
    fn render(&mut self, target: &WindowContext) -> Result<(), RenderError>;
}

} // verus!
