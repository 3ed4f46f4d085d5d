//! Presentable-surface configuration: the supported capability sets of a
//! surface reduced to plain values, and the policy that picks a
//! configuration from them.

use vstd::prelude::*;

verus! {

/// One supported pixel format of a presentable surface, reduced to what
/// the configuration logic reads: an identifying code — the entry's
/// position in the reported capability set — and whether the format is
/// an sRGB format.
#[derive(Clone, Copy, Debug, PartialEq, Eq, Structural)]
pub struct SurfaceFormat {
    pub code: u32,
    pub srgb: bool,
}

/// Policy governing when a presented frame becomes visible relative to
/// display refresh.
#[derive(Clone, Copy, Debug, PartialEq, Eq, Structural)]
pub enum PresentMode {
    AutoVsync,
    AutoNoVsync,
    Fifo,
    FifoRelaxed,
    Immediate,
    Mailbox,
}

/// Alpha-compositing behaviour of a presented frame.
#[derive(Clone, Copy, Debug, PartialEq, Eq, Structural)]
pub enum AlphaMode {
    Auto,
    Opaque,
    PreMultiplied,
    PostMultiplied,
    Inherit,
}

/// The capability sets a surface reports against the chosen adapter,
/// reduced to the parts the configuration logic reads.
#[derive(Clone, Debug, PartialEq)]
pub struct SurfaceCaps {
    /// Supported pixel formats, in the order the surface reports them.
    pub formats: Vec<SurfaceFormat>,
    /// Supported alpha-compositing modes, in reported order.
    pub alpha_modes: Vec<AlphaMode>,
}

impl SurfaceCaps {
    /// A surface compatible with the adapter reports at least one format
    /// and at least one alpha mode.
    pub open spec fn wf(self) -> bool {
        self.formats@.len() > 0 && self.alpha_modes@.len() > 0
    }
}

/// The configuration applied to a presentable surface.
#[derive(Clone, Copy, Debug, PartialEq, Eq, Structural)]
pub struct SurfaceConfig {
    pub format: SurfaceFormat,
    pub width: u32,
    pub height: u32,
    pub present_mode: PresentMode,
    pub alpha_mode: AlphaMode,
    /// Maximum number of frames the presentation engine may queue ahead
    /// of display.
    pub frame_latency: u32,
}

impl SurfaceConfig {
    /// A surface may never be configured with a degenerate extent.
    pub open spec fn wf(self) -> bool {
        self.width >= 1 && self.height >= 1
    }
}

/// True when position `i` of `s` holds an sRGB format.
pub open spec fn srgb_at(s: Seq<SurfaceFormat>, i: int) -> bool {
    0 <= i < s.len() && s[i].srgb
}

/// True when `s` holds at least one sRGB format.
pub open spec fn has_srgb(s: Seq<SurfaceFormat>) -> bool {
    exists|i: int| srgb_at(s, i)
}

/// True when no position of `s` before `i` holds an sRGB format.
pub open spec fn no_srgb_before(s: Seq<SurfaceFormat>, i: int) -> bool {
    forall|j: int| 0 <= j < i ==> !srgb_at(s, j)
}

/// The format-selection policy: `f` is the first sRGB entry of `s` when
/// one exists, and the first entry of `s` otherwise. For a non-empty `s`
/// exactly one `f` satisfies this.
pub open spec fn is_selected_format(s: Seq<SurfaceFormat>, f: SurfaceFormat) -> bool {
    if has_srgb(s) {
        exists|i: int| srgb_at(s, i) && no_srgb_before(s, i) && f == s[i]
    } else {
        s.len() > 0 && f == s[0]
    }
}

/// Picks the pixel format for a surface from its supported set: the
/// first sRGB-capable entry, falling back to the set's first entry when
/// none is sRGB.
pub fn select_format(formats: &Vec<SurfaceFormat>) -> (r: SurfaceFormat)
    requires
        formats@.len() > 0,
    ensures
        is_selected_format(formats@, r),
{
    let n: usize = formats.len();
    let mut i: usize = 0;
    while i < n
        invariant
            n == formats@.len(),
            i <= n,
            no_srgb_before(formats@, i as int),
        decreases n - i,
    {
        if formats[i].srgb {
            assert(srgb_at(formats@, i as int));
            return formats[i];
        }
        assert(!srgb_at(formats@, i as int));
        i = i + 1;
    }
    assert(!has_srgb(formats@));
    formats[0]
}

/// Format selection is total and lands in the supported set: the chosen
/// entry is a member of `s`, is the first sRGB entry when `s` holds one,
/// and is the head of `s` otherwise.
pub proof fn lemma_format_selection_in_set(s: Seq<SurfaceFormat>, f: SurfaceFormat)
    requires
        is_selected_format(s, f),
    ensures
        s.contains(f),
        has_srgb(s) ==> f.srgb,
        !has_srgb(s) ==> f == s[0],
{
    if has_srgb(s) {
        let i = choose|i: int| srgb_at(s, i) && no_srgb_before(s, i) && f == s[i];
        assert(s[i] == f);
    } else {
        assert(s[0] == f);
    }
}

/// Format selection is deterministic: any two formats satisfying the
/// selection policy over the same supported set are equal.
pub proof fn lemma_format_selection_deterministic(
    s: Seq<SurfaceFormat>,
    f1: SurfaceFormat,
    f2: SurfaceFormat,
)
    requires
        is_selected_format(s, f1),
        is_selected_format(s, f2),
    ensures
        f1 == f2,
{
    if has_srgb(s) {
        let i1 = choose|i: int| srgb_at(s, i) && no_srgb_before(s, i) && f1 == s[i];
        let i2 = choose|i: int| srgb_at(s, i) && no_srgb_before(s, i) && f2 == s[i];
        if i1 < i2 {
            assert(!srgb_at(s, i1));
        } else if i2 < i1 {
            assert(!srgb_at(s, i2));
        }
    }
}

} // verus!
