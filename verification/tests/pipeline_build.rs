//! Tests of the pipeline-matrix build parameters: the twenty cells,
//! their blend functions, stencil tests and color masks.

use gfx_graphics::draw_state::{Blend, Stencil};
use gfx_graphics::matrix::{cell_params, pipeline_specs};
use gfx_graphics::pso_state::{
    BlendChannel, BlendValue, ColorMask, Comparison, Equation, Factor, StencilOp, StencilState,
};

#[test]
fn twenty_cells_in_build_order() {
    let specs = pipeline_specs();
    assert_eq!(specs.len(), 20);
    let clips = [
        None,
        Some(Stencil::Clip(0)),
        Some(Stencil::Inside(0)),
        Some(Stencil::Outside(0)),
    ];
    let blends = [
        Some(Blend::Alpha),
        Some(Blend::Add),
        Some(Blend::Multiply),
        Some(Blend::Invert),
        None,
    ];
    let mut k = 0;
    for clip in clips {
        for blend in blends {
            assert_eq!(specs[k], cell_params(clip, blend));
            k += 1;
        }
    }
}

#[test]
fn cell_params_ignore_carried_stencil_value() {
    for blend in [None, Some(Blend::Multiply)] {
        assert_eq!(
            cell_params(Some(Stencil::Clip(3)), blend),
            cell_params(Some(Stencil::Clip(200)), blend)
        );
        assert_eq!(
            cell_params(Some(Stencil::Inside(0)), blend),
            cell_params(Some(Stencil::Inside(255)), blend)
        );
    }
}

#[test]
fn absent_blend_is_degenerate_blend_function() {
    let p = cell_params(None, None);
    let replace = BlendChannel {
        equation: Equation::Add,
        source: Factor::One,
        destination: Factor::Zero,
    };
    assert_eq!(p.blend.color, replace);
    assert_eq!(p.blend.alpha, replace);
}

#[test]
fn alpha_blend_function() {
    let p = cell_params(None, Some(Blend::Alpha));
    assert_eq!(
        p.blend.color,
        BlendChannel {
            equation: Equation::Add,
            source: Factor::ZeroPlus(BlendValue::SourceAlpha),
            destination: Factor::OneMinus(BlendValue::SourceAlpha),
        }
    );
    assert_eq!(
        p.blend.alpha,
        BlendChannel {
            equation: Equation::Add,
            source: Factor::One,
            destination: Factor::One,
        }
    );
}

#[test]
fn invert_blend_function() {
    let p = cell_params(None, Some(Blend::Invert));
    assert_eq!(p.blend.color.equation, Equation::Sub);
    assert_eq!(p.blend.color.source, Factor::ZeroPlus(BlendValue::ConstColor));
    assert_eq!(p.blend.color.destination, Factor::ZeroPlus(BlendValue::SourceColor));
}

#[test]
fn clip_row_writes_no_color_and_replaces_stencil() {
    for blend in [
        Some(Blend::Alpha),
        Some(Blend::Add),
        Some(Blend::Multiply),
        Some(Blend::Invert),
        None,
    ] {
        let p = cell_params(Some(Stencil::Clip(0)), blend);
        assert_eq!(
            p.mask,
            ColorMask { red: false, green: false, blue: false, alpha: false }
        );
        assert_eq!(p.stencil.front.fun, Comparison::Never);
        assert_eq!(p.stencil.front.op_fail, StencilOp::Replace);
        assert_eq!(p.stencil.front.mask_read, 255);
        assert_eq!(p.stencil.front.mask_write, 255);
        assert_eq!(p.stencil.front, p.stencil.back);
    }
}

#[test]
fn non_clip_rows_write_all_color() {
    let all = ColorMask { red: true, green: true, blue: true, alpha: true };
    for clip in [None, Some(Stencil::Inside(0)), Some(Stencil::Outside(0))] {
        assert_eq!(cell_params(clip, None).mask, all);
    }
}

#[test]
fn stencil_tests_per_clip_mode() {
    let keep = (StencilOp::Keep, StencilOp::Keep, StencilOp::Keep);
    let none = cell_params(None, None).stencil;
    assert_eq!(none, StencilState::new(Comparison::Always, 0, keep));
    let inside = cell_params(Some(Stencil::Inside(0)), None).stencil;
    assert_eq!(inside, StencilState::new(Comparison::Equal, 255, keep));
    let outside = cell_params(Some(Stencil::Outside(0)), None).stencil;
    assert_eq!(outside, StencilState::new(Comparison::NotEqual, 255, keep));
}

#[test]
fn stencil_state_front_equals_back() {
    let s = StencilState::new(
        Comparison::Equal,
        127,
        (StencilOp::Zero, StencilOp::Invert, StencilOp::Replace),
    );
    assert_eq!(s.front, s.back);
    assert_eq!(s.front.fun, Comparison::Equal);
    assert_eq!(s.front.mask_read, 127);
    assert_eq!(s.front.mask_write, 127);
    assert_eq!(s.front.op_fail, StencilOp::Zero);
    assert_eq!(s.front.op_depth_fail, StencilOp::Invert);
    assert_eq!(s.front.op_pass, StencilOp::Replace);
}
