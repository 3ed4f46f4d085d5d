//! Bridge from the capability values the GPU layer reports to the
//! model: each reported pixel format becomes a `SurfaceFormat` tagged
//! with its position in the reported order and its sRGB-ness, each
//! reported compositing mode becomes the matching `AlphaMode`.

use vstd::prelude::*;

use crate::surface::AlphaMode;
use crate::surface::SurfaceCaps;
use crate::surface::SurfaceFormat;

verus! {

#[verifier::external_type_specification]
#[verifier::external_body]
pub struct ExTextureFormat(wgpu::TextureFormat);

#[verifier::external_type_specification]
#[verifier::external_body]
pub struct ExCompositeAlphaMode(wgpu::CompositeAlphaMode);

/// Relies on wgpu::TextureFormat::is_srgb: whether a format is an sRGB
/// format, a property of the format value alone.
#[verifier::external_body]
fn format_is_srgb(format: &wgpu::TextureFormat) -> bool {
    format.is_srgb()
}

/// Relies on wgpu::CompositeAlphaMode having exactly the five
/// compositing behaviours that `AlphaMode` mirrors, one arm each.
#[verifier::external_body]
fn alpha_entry(mode: &wgpu::CompositeAlphaMode) -> AlphaMode {
    match mode {
        wgpu::CompositeAlphaMode::Auto => AlphaMode::Auto,
        wgpu::CompositeAlphaMode::Opaque => AlphaMode::Opaque,
        wgpu::CompositeAlphaMode::PreMultiplied => AlphaMode::PreMultiplied,
        wgpu::CompositeAlphaMode::PostMultiplied => AlphaMode::PostMultiplied,
        wgpu::CompositeAlphaMode::Inherit => AlphaMode::Inherit,
    }
}

/// Reduces the capability sets a surface reports to the model the
/// configuration logic works on, keeping the reported order: the entry
/// at position `i` of the reported format set becomes the model format
/// with code `i`, so a chosen code maps back to the reported format it
/// stands for.
pub fn caps_from_raw(
    formats: &Vec<wgpu::TextureFormat>,
    alpha_modes: &Vec<wgpu::CompositeAlphaMode>,
) -> (c: SurfaceCaps)
    requires
        0 < formats@.len() <= u32::MAX,
        alpha_modes@.len() > 0,
    ensures
        c.wf(),
        c.formats@.len() == formats@.len(),
        forall|i: int| 0 <= i < c.formats@.len() ==> c.formats@[i].code == i as u32,
        c.alpha_modes@.len() == alpha_modes@.len(),
{
    let mut model_formats: Vec<SurfaceFormat> = Vec::new();
    let mut i: usize = 0;
    while i < formats.len()
        invariant
            i <= formats@.len() <= u32::MAX,
            model_formats@.len() == i,
            forall|j: int| 0 <= j < i ==> model_formats@[j].code == j as u32,
        decreases formats@.len() - i,
    {
        model_formats.push(SurfaceFormat { code: i as u32, srgb: format_is_srgb(&formats[i]) });
        i = i + 1;
    }

    let mut model_alphas: Vec<AlphaMode> = Vec::new();
    let mut k: usize = 0;
    while k < alpha_modes.len()
        invariant
            k <= alpha_modes@.len(),
            model_alphas@.len() == k,
        decreases alpha_modes@.len() - k,
    {
        model_alphas.push(alpha_entry(&alpha_modes[k]));
        k = k + 1;
    }

    SurfaceCaps { formats: model_formats, alpha_modes: model_alphas }
}

} // verus!
