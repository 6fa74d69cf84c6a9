//! Tests of the exhaustive alpha-channel classification of the
//! supported pixel-surface formats.

use gfx_graphics::formats::{has_texture_alpha, SurfaceType};

#[test]
fn rgba_formats_have_alpha() {
    assert!(has_texture_alpha(SurfaceType::R4_G4_B4_A4));
    assert!(has_texture_alpha(SurfaceType::R5_G5_B5_A1));
    assert!(has_texture_alpha(SurfaceType::R8_G8_B8_A8));
    assert!(has_texture_alpha(SurfaceType::R10_G10_B10_A2));
    assert!(has_texture_alpha(SurfaceType::R16_G16_B16_A16));
    assert!(has_texture_alpha(SurfaceType::R32_G32_B32_A32));
}

#[test]
fn every_other_format_has_no_alpha() {
    assert!(!has_texture_alpha(SurfaceType::R3_G3_B2));
    assert!(!has_texture_alpha(SurfaceType::R4_G4));
    assert!(!has_texture_alpha(SurfaceType::R5_G6_B5));
    assert!(!has_texture_alpha(SurfaceType::R8));
    assert!(!has_texture_alpha(SurfaceType::R8_G8));
    assert!(!has_texture_alpha(SurfaceType::R8_G8_B8));
    assert!(!has_texture_alpha(SurfaceType::R11_G11_B10));
    assert!(!has_texture_alpha(SurfaceType::R16));
    assert!(!has_texture_alpha(SurfaceType::R16_G16));
    assert!(!has_texture_alpha(SurfaceType::R16_G16_B16));
    assert!(!has_texture_alpha(SurfaceType::R32));
    assert!(!has_texture_alpha(SurfaceType::R32_G32));
    assert!(!has_texture_alpha(SurfaceType::R32_G32_B32));
}

#[test]
fn depth_and_stencil_formats_have_no_alpha() {
    assert!(!has_texture_alpha(SurfaceType::D16));
    assert!(!has_texture_alpha(SurfaceType::D24));
    assert!(!has_texture_alpha(SurfaceType::D24_S8));
    assert!(!has_texture_alpha(SurfaceType::D32));
}
