//! One OS window together with its presentable surface, reduced to the
//! values the configuration logic reads and decides on: the window's
//! identity, the surface's capability sets, and the configuration
//! currently applied to the surface.

use vstd::prelude::*;

use crate::surface::AlphaMode;
use crate::surface::PresentMode;
use crate::surface::SurfaceCaps;
use crate::surface::SurfaceConfig;
use crate::surface::is_selected_format;
use crate::surface::select_format;

verus! {

/// Identity of one OS window, as the windowing layer reports it.
#[derive(Clone, Copy, Debug, PartialEq, Eq, Hash, Structural)]
pub struct WindowId(pub u64);

/// Ways creating a window or its surface can fail; the payload carries
/// the windowing or GPU layer's description of the failure.
#[derive(Clone, Debug, PartialEq, Eq)]
pub enum WindowContextError {
    CreateWindow(String),
    CreateSurface(String),
}

/// A renderable surface associated with a specific OS window.
///
/// `generation` counts how many times the stored configuration has been
/// applied to the underlying surface; the embedder reapplies the real
/// surface configuration whenever it changes.
#[derive(Clone, Debug, PartialEq)]
pub struct WindowContext {
    pub id: WindowId,
    pub caps: SurfaceCaps,
    pub config: SurfaceConfig,
    pub generation: u64,
}

/// The generation counter after one more application of the
/// configuration.
pub open spec fn next_gen(g: u64) -> u64 {
    if g == u64::MAX {
        0
    } else {
        (g + 1) as u64
    }
}

/// A window dimension clamped to the minimum the surface accepts: OS
/// windows may transiently report a zero extent.
pub open spec fn clamp_dim(d: u32) -> u32 {
    if d == 0 {
        1
    } else {
        d
    }
}

/// How one `resize` call relates the context after the call (`post`) to
/// the context before it (`pre`): a resize with both dimensions non-zero
/// stores the new extent and reapplies the configuration; one with a
/// zero dimension changes nothing.
pub open spec fn resize_applies(
    pre: WindowContext,
    post: WindowContext,
    width: u32,
    height: u32,
) -> bool {
    &&& post.id == pre.id
    &&& post.caps == pre.caps
    &&& if width > 0 && height > 0 {
        &&& post.config == (SurfaceConfig { width, height, ..pre.config })
        &&& post.generation == next_gen(pre.generation)
    } else {
        &&& post.config == pre.config
        &&& post.generation == pre.generation
    }
}

impl WindowContext {
    /// The context's invariant: the capability sets are non-empty, the
    /// extent is never degenerate, and the configuration follows the
    /// selection policy over the stored capabilities — the format is the
    /// policy's choice, the alpha mode is the first supported one, the
    /// presentation mode is vsync-locked and the frame-latency bound
    /// is 2.
    pub open spec fn wf(self) -> bool {
        &&& self.caps.wf()
        &&& self.config.wf()
        &&& is_selected_format(self.caps.formats@, self.config.format)
        &&& self.config.alpha_mode == self.caps.alpha_modes@[0]
        &&& self.config.present_mode == PresentMode::Fifo
        &&& self.config.frame_latency == 2
    }

    /// Builds the context for a window whose surface reported `caps`
    /// and whose current inner size is `width` by `height`: picks the
    /// pixel format from the supported set, clamps the extent to a
    /// minimum of 1 in each dimension, and counts one application of
    /// the resulting configuration.
    pub fn from_raw(id: WindowId, caps: SurfaceCaps, width: u32, height: u32) -> (w: WindowContext)
        requires
            caps.wf(),
        ensures
            w.wf(),
            w.id == id,
            w.caps == caps,
            is_selected_format(caps.formats@, w.config.format),
            w.config.width == clamp_dim(width),
            w.config.height == clamp_dim(height),
            w.config.present_mode == PresentMode::Fifo,
            w.config.alpha_mode == caps.alpha_modes@[0],
            w.config.frame_latency == 2,
            w.generation == 1,
    {
        let format = select_format(&caps.formats);
        let alpha_mode = caps.alpha_modes[0];
        let config = SurfaceConfig {
            format,
            width: if width == 0 { 1 } else { width },
            height: if height == 0 { 1 } else { height },
            present_mode: PresentMode::Fifo,
            alpha_mode,
            frame_latency: 2,
        };
        WindowContext { id, caps, config, generation: 1 }
    }

    /// Law: a resize to a non-zero extent leaves a configuration whose
    /// width and height equal the clamped extent — for non-zero input
    /// the clamp is the identity — with every other configuration field
    /// kept, and the configuration freshly reapplied.
    pub proof fn lemma_resize_nonzero_sets_extent(
        pre: WindowContext,
        post: WindowContext,
        width: u32,
        height: u32,
    )
        requires
            resize_applies(pre, post, width, height),
            width > 0,
            height > 0,
        ensures
            post.config.width == clamp_dim(width),
            post.config.height == clamp_dim(height),
            post.config.format == pre.config.format,
            post.config.present_mode == pre.config.present_mode,
            post.config.alpha_mode == pre.config.alpha_mode,
            post.config.frame_latency == pre.config.frame_latency,
            post.generation == next_gen(pre.generation),
    {
    }

    /// Law: a resize with a zero dimension leaves the existing
    /// configuration unchanged and does not reapply it, whatever
    /// configuration was in place before.
    pub proof fn lemma_resize_zero_is_noop(
        pre: WindowContext,
        post: WindowContext,
        width: u32,
        height: u32,
    )
        requires
            resize_applies(pre, post, width, height),
            width == 0 || height == 0,
        ensures
            post.config == pre.config,
            post.generation == pre.generation,
            post == pre,
    {
    }

    /// Applies a resize reported by the windowing layer: a zero
    /// dimension (a minimized or degenerate window) changes nothing,
    /// any other extent is stored and the configuration reapplied.
    /// Repeating a call with the same extent reapplies the same
    /// configuration.
    pub fn resize(&mut self, width: u32, height: u32)
        ensures
            resize_applies(*old(self), *final(self), width, height),
            old(self).wf() ==> final(self).wf(),
    {
        if width > 0 && height > 0 {
            self.config.width = width;
            self.config.height = height;
            self.generation = if self.generation == u64::MAX {
                0
            } else {
                self.generation + 1
            };
        }
    }
}

} // verus!
