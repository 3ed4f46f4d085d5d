//! Orchestration core of a dual-window, GPU-accelerated visualization
//! application: one window carries the primary visual output (the view),
//! a second hosts an immediate-mode control panel (the control).
//!
//! This crate holds the decision logic of that core — surface
//! configuration, event routing, and the session lifecycle — stated over
//! plain values and verified. The surrounding shell owns the actual OS
//! windows and GPU handles, performs the effects this crate decides on,
//! and feeds platform events back in.

mod caps;
mod gpu;
mod gui;
mod render;
mod session;
mod surface;
mod window;

pub use caps::caps_from_raw;
pub use gpu::AdapterRequest;
pub use gpu::DeviceRequest;
pub use gpu::GpuContextError;
pub use gpu::MemoryHint;
pub use gpu::PowerPreference;
pub use gpu::adapter_request;
pub use gpu::device_request;
pub use gui::GuiContext;
pub use render::RenderError;
pub use render::Renderer;
pub use render::SurfaceError;
pub use session::Dispatch;
pub use session::Phase;
pub use session::Session;
pub use session::SessionAction;
pub use session::SessionError;
pub use session::WindowEvent;
pub use session::phase_after;
pub use session::route;
pub use session::should_initialize;
pub use surface::AlphaMode;
pub use surface::PresentMode;
pub use surface::SurfaceCaps;
pub use surface::SurfaceConfig;
pub use surface::SurfaceFormat;
pub use surface::select_format;
pub use window::WindowContext;
pub use window::WindowContextError;
pub use window::WindowId;
