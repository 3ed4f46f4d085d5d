//! GPU acquisition policy. The handles themselves — connection,
//! adapter, device, queue — live with the shell that performs the
//! blocking driver negotiation at session start; this module pins down
//! the requests that negotiation must make and the ways it can fail.

use vstd::prelude::*;

verus! {

/// Power profile to prefer when picking an adapter.
#[derive(Clone, Copy, Debug, PartialEq, Eq, Structural)]
pub enum PowerPreference {
    NoPreference,
    LowPower,
    HighPerformance,
}

/// Memory-allocation strategy to request from the logical device.
#[derive(Clone, Copy, Debug, PartialEq, Eq, Structural)]
pub enum MemoryHint {
    Performance,
    MemoryUsage,
}

/// The constraints an adapter must be picked under.
#[derive(Clone, Copy, Debug, PartialEq, Eq, Structural)]
pub struct AdapterRequest {
    pub power_preference: PowerPreference,
    /// Whether to force a fallback/software adapter; never set here.
    pub force_fallback_adapter: bool,
    /// Whether the adapter must be able to present to an existing
    /// surface; always required, so the probe surface must exist before
    /// the adapter is picked.
    pub compatible_surface_required: bool,
}

/// The shape of the logical-device request: no specialized features or
/// limits, only a memory-allocation hint.
#[derive(Clone, Copy, Debug, PartialEq, Eq, Structural)]
pub struct DeviceRequest {
    pub memory_hint: MemoryHint,
}

/// Ways GPU acquisition can fail; the payload carries the GPU layer's
/// description of the failure. Both are fatal to session creation and
/// never retried.
#[derive(Clone, Debug, PartialEq, Eq)]
pub enum GpuContextError {
    RequestAdapter(String),
    RequestDevice(String),
}

/// The adapter-selection policy: prefer a high-performance power
/// profile, never force a fallback/software adapter, and require
/// compatibility with the probe surface.
pub fn adapter_request() -> (r: AdapterRequest)
    ensures
        r.power_preference == PowerPreference::HighPerformance,
        !r.force_fallback_adapter,
        r.compatible_surface_required,
{
    AdapterRequest {
        power_preference: PowerPreference::HighPerformance,
        force_fallback_adapter: false,
        compatible_surface_required: true,
    }
}

/// The device-request policy: default feature set and limits, with a
/// performance memory-allocation hint.
pub fn device_request() -> (r: DeviceRequest)
    ensures
        r.memory_hint == MemoryHint::Performance,
{
    DeviceRequest { memory_hint: MemoryHint::Performance }
}

} // verus!
