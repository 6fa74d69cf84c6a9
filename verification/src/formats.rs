//! Classification of texture pixel-surface formats: which of the
//! supported formats carry a dedicated alpha channel. The enumeration
//! is exhaustive over the formats the back end supports; classifying a
//! format is a pure, total function.

use vstd::prelude::*;

verus! {

/// The pixel-surface format of a texture, named by its per-channel bit
/// widths (`R`, `G`, `B`, `A` color channels; `D` depth, `S` stencil).
#[allow(non_camel_case_types)]
#[derive(Clone, Copy, Debug, PartialEq, Eq, Structural)]
pub enum SurfaceType {
    R3_G3_B2,
    R4_G4,
    R4_G4_B4_A4,
    R5_G5_B5_A1,
    R5_G6_B5,
    R8,
    R8_G8,
    R8_G8_B8,
    R8_G8_B8_A8,
    R10_G10_B10_A2,
    R11_G11_B10,
    R16,
    R16_G16,
    R16_G16_B16,
    R16_G16_B16_A16,
    R32,
    R32_G32,
    R32_G32_B32,
    R32_G32_B32_A32,
    D16,
    D24,
    D24_S8,
    D32,
}

/// Whether a format carries a dedicated alpha channel: exactly the
/// four-channel RGBA formats. Luminance-only, RGB-only, packed
/// non-alpha, and depth/depth-stencil formats do not.
pub open spec fn spec_has_alpha(format: SurfaceType) -> bool {
    format == SurfaceType::R4_G4_B4_A4 || format == SurfaceType::R5_G5_B5_A1 || format
        == SurfaceType::R8_G8_B8_A8 || format == SurfaceType::R10_G10_B10_A2 || format
        == SurfaceType::R16_G16_B16_A16 || format == SurfaceType::R32_G32_B32_A32
}

/// Classifies a texture's surface format: true exactly for the formats
/// with a dedicated alpha channel.
pub fn has_texture_alpha(format: SurfaceType) -> (r: bool)
    ensures
        r == spec_has_alpha(format),
{
    match format {
        SurfaceType::R4_G4_B4_A4
        | SurfaceType::R5_G5_B5_A1
        | SurfaceType::R8_G8_B8_A8
        | SurfaceType::R10_G10_B10_A2
        | SurfaceType::R16_G16_B16_A16
        | SurfaceType::R32_G32_B32_A32 => true,
        SurfaceType::R3_G3_B2
        | SurfaceType::R4_G4
        | SurfaceType::R5_G6_B5
        | SurfaceType::R8
        | SurfaceType::R8_G8
        | SurfaceType::R8_G8_B8
        | SurfaceType::R11_G11_B10
        | SurfaceType::R16
        | SurfaceType::R16_G16
        | SurfaceType::R16_G16_B16
        | SurfaceType::R32
        | SurfaceType::R32_G32
        | SurfaceType::R32_G32_B32
        | SurfaceType::D16
        | SurfaceType::D24
        | SurfaceType::D24_S8
        | SurfaceType::D32 => false,
    }
}

} // verus!
