//! Models of the fixed-function state baked into a pipeline object:
//! blend equation, stencil test, and color write mask. These mirror the
//! state descriptors of the underlying graphics-API binding as plain
//! data, so that the pipeline-matrix construction can be stated and
//! proved here while the binding itself compiles the descriptors.

use vstd::prelude::*;
use crate::draw_state::{Blend, Stencil};

verus! {

/// Comparison function for the stencil test.
#[derive(Clone, Copy, Debug, PartialEq, Eq, Structural)]
pub enum Comparison {
    Never,
    Less,
    LessEqual,
    Equal,
    GreaterEqual,
    Greater,
    NotEqual,
    Always,
}

/// Operation applied to the stencil buffer after the test.
#[derive(Clone, Copy, Debug, PartialEq, Eq, Structural)]
pub enum StencilOp {
    Keep,
    Zero,
    Replace,
    IncrementClamp,
    IncrementWrap,
    DecrementClamp,
    DecrementWrap,
    Invert,
}

/// One face's stencil configuration.
#[derive(Clone, Copy, Debug, PartialEq, Eq, Structural)]
pub struct StencilSide {
    /// Comparison applied between the reference value and the buffer.
    pub fun: Comparison,
    /// Mask applied to both values before the comparison.
    pub mask_read: u8,
    /// Mask applied when writing to the stencil buffer.
    pub mask_write: u8,
    /// Operation when the stencil test fails.
    pub op_fail: StencilOp,
    /// Operation when the stencil test passes but the depth test fails.
    pub op_depth_fail: StencilOp,
    /// Operation when both tests pass.
    pub op_pass: StencilOp,
}

/// Full two-sided stencil configuration of a pipeline. Front and back
/// faces are always configured identically by this back end.
#[derive(Clone, Copy, Debug, PartialEq, Eq, Structural)]
pub struct StencilState {
    pub front: StencilSide,
    pub back: StencilSide,
}

/// The side configuration built from a comparison, one shared read/write
/// mask, and the `(fail, depth-fail, pass)` operation triple.
pub open spec fn spec_stencil_side(
    fun: Comparison,
    mask: u8,
    ops: (StencilOp, StencilOp, StencilOp),
) -> StencilSide {
    StencilSide {
        fun: fun,
        mask_read: mask,
        mask_write: mask,
        op_fail: ops.0,
        op_depth_fail: ops.1,
        op_pass: ops.2,
    }
}

impl StencilState {
    /// Builds a two-sided stencil state with identical front and back
    /// configuration.
    pub fn new(fun: Comparison, mask: u8, ops: (StencilOp, StencilOp, StencilOp)) -> (r: StencilState)
        ensures
            r.front == spec_stencil_side(fun, mask, ops),
            r.back == spec_stencil_side(fun, mask, ops),
    {
        let side = StencilSide {
            fun: fun,
            mask_read: mask,
            mask_write: mask,
            op_fail: ops.0,
            op_depth_fail: ops.1,
            op_pass: ops.2,
        };
        StencilState { front: side, back: side }
    }
}

/// An input to a blend factor.
#[derive(Clone, Copy, Debug, PartialEq, Eq, Structural)]
pub enum BlendValue {
    SourceColor,
    SourceAlpha,
    DestColor,
    DestAlpha,
    ConstColor,
    ConstAlpha,
}

/// A blend factor: a multiplier for the source or destination channel.
#[derive(Clone, Copy, Debug, PartialEq, Eq, Structural)]
pub enum Factor {
    Zero,
    One,
    SourceAlphaSaturated,
    ZeroPlus(BlendValue),
    OneMinus(BlendValue),
}

/// A blend equation combining the weighted source and destination.
#[derive(Clone, Copy, Debug, PartialEq, Eq, Structural)]
pub enum Equation {
    Add,
    Sub,
    RevSub,
    Min,
    Max,
}

/// Blend configuration of one channel group (color or alpha).
#[derive(Clone, Copy, Debug, PartialEq, Eq, Structural)]
pub struct BlendChannel {
    pub equation: Equation,
    pub source: Factor,
    pub destination: Factor,
}

/// Full blend configuration of a pipeline.
#[derive(Clone, Copy, Debug, PartialEq, Eq, Structural)]
pub struct BlendState {
    pub color: BlendChannel,
    pub alpha: BlendChannel,
}

/// Color write mask: which channels a draw call may write.
#[derive(Clone, Copy, Debug, PartialEq, Eq, Structural)]
pub struct ColorMask {
    pub red: bool,
    pub green: bool,
    pub blue: bool,
    pub alpha: bool,
}

/// The mask that enables writing every channel.
pub open spec fn spec_mask_all() -> ColorMask {
    ColorMask { red: true, green: true, blue: true, alpha: true }
}

/// The mask that disables writing entirely.
pub open spec fn spec_mask_none() -> ColorMask {
    ColorMask { red: false, green: false, blue: false, alpha: false }
}

/// The blend state chosen for a blend mode. No requested blending is
/// realized as a degenerate blend function (source factor one,
/// destination factor zero, add) so that every matrix cell shares the
/// same pipeline-creation path.
pub open spec fn spec_blend_state(blend: Option<Blend>) -> BlendState {
    match blend {
        Some(Blend::Alpha) => BlendState {
            color: BlendChannel {
                equation: Equation::Add,
                source: Factor::ZeroPlus(BlendValue::SourceAlpha),
                destination: Factor::OneMinus(BlendValue::SourceAlpha),
            },
            alpha: BlendChannel {
                equation: Equation::Add,
                source: Factor::One,
                destination: Factor::One,
            },
        },
        Some(Blend::Add) => BlendState {
            color: BlendChannel {
                equation: Equation::Add,
                source: Factor::One,
                destination: Factor::One,
            },
            alpha: BlendChannel {
                equation: Equation::Add,
                source: Factor::One,
                destination: Factor::One,
            },
        },
        Some(Blend::Multiply) => BlendState {
            color: BlendChannel {
                equation: Equation::Add,
                source: Factor::ZeroPlus(BlendValue::DestColor),
                destination: Factor::Zero,
            },
            alpha: BlendChannel {
                equation: Equation::Add,
                source: Factor::ZeroPlus(BlendValue::DestAlpha),
                destination: Factor::Zero,
            },
        },
        Some(Blend::Invert) => BlendState {
            color: BlendChannel {
                equation: Equation::Sub,
                source: Factor::ZeroPlus(BlendValue::ConstColor),
                destination: Factor::ZeroPlus(BlendValue::SourceColor),
            },
            alpha: BlendChannel {
                equation: Equation::Add,
                source: Factor::Zero,
                destination: Factor::One,
            },
        },
        None => BlendState {
            color: BlendChannel {
                equation: Equation::Add,
                source: Factor::One,
                destination: Factor::Zero,
            },
            alpha: BlendChannel {
                equation: Equation::Add,
                source: Factor::One,
                destination: Factor::Zero,
            },
        },
    }
}

/// Builds the blend state chosen for a blend mode.
pub fn blend_state_for(blend: Option<Blend>) -> (r: BlendState)
    ensures
        r == spec_blend_state(blend),
{
    match blend {
        Some(Blend::Alpha) => BlendState {
            color: BlendChannel {
                equation: Equation::Add,
                source: Factor::ZeroPlus(BlendValue::SourceAlpha),
                destination: Factor::OneMinus(BlendValue::SourceAlpha),
            },
            alpha: BlendChannel {
                equation: Equation::Add,
                source: Factor::One,
                destination: Factor::One,
            },
        },
        Some(Blend::Add) => BlendState {
            color: BlendChannel {
                equation: Equation::Add,
                source: Factor::One,
                destination: Factor::One,
            },
            alpha: BlendChannel {
                equation: Equation::Add,
                source: Factor::One,
                destination: Factor::One,
            },
        },
        Some(Blend::Multiply) => BlendState {
            color: BlendChannel {
                equation: Equation::Add,
                source: Factor::ZeroPlus(BlendValue::DestColor),
                destination: Factor::Zero,
            },
            alpha: BlendChannel {
                equation: Equation::Add,
                source: Factor::ZeroPlus(BlendValue::DestAlpha),
                destination: Factor::Zero,
            },
        },
        Some(Blend::Invert) => BlendState {
            color: BlendChannel {
                equation: Equation::Sub,
                source: Factor::ZeroPlus(BlendValue::ConstColor),
                destination: Factor::ZeroPlus(BlendValue::SourceColor),
            },
            alpha: BlendChannel {
                equation: Equation::Add,
                source: Factor::Zero,
                destination: Factor::One,
            },
        },
        None => BlendState {
            color: BlendChannel {
                equation: Equation::Add,
                source: Factor::One,
                destination: Factor::Zero,
            },
            alpha: BlendChannel {
                equation: Equation::Add,
                source: Factor::One,
                destination: Factor::Zero,
            },
        },
    }
}

/// The stencil test chosen for a clip mode: no test for `None`, a
/// never-passing replace for `Clip`, equality for `Inside`, inequality
/// for `Outside`. The carried reference value of the clip descriptor
/// plays no role here; it is supplied per draw call.
pub open spec fn spec_stencil_state(stencil: Option<Stencil>) -> StencilState {
    match stencil {
        None => StencilState {
            front: spec_stencil_side(Comparison::Always, 0, (StencilOp::Keep, StencilOp::Keep, StencilOp::Keep)),
            back: spec_stencil_side(Comparison::Always, 0, (StencilOp::Keep, StencilOp::Keep, StencilOp::Keep)),
        },
        Some(Stencil::Clip(_)) => StencilState {
            front: spec_stencil_side(Comparison::Never, 255, (StencilOp::Replace, StencilOp::Keep, StencilOp::Keep)),
            back: spec_stencil_side(Comparison::Never, 255, (StencilOp::Replace, StencilOp::Keep, StencilOp::Keep)),
        },
        Some(Stencil::Inside(_)) => StencilState {
            front: spec_stencil_side(Comparison::Equal, 255, (StencilOp::Keep, StencilOp::Keep, StencilOp::Keep)),
            back: spec_stencil_side(Comparison::Equal, 255, (StencilOp::Keep, StencilOp::Keep, StencilOp::Keep)),
        },
        Some(Stencil::Outside(_)) => StencilState {
            front: spec_stencil_side(Comparison::NotEqual, 255, (StencilOp::Keep, StencilOp::Keep, StencilOp::Keep)),
            back: spec_stencil_side(Comparison::NotEqual, 255, (StencilOp::Keep, StencilOp::Keep, StencilOp::Keep)),
        },
    }
}

/// Builds the stencil test chosen for a clip mode.
pub fn stencil_state_for(stencil: Option<Stencil>) -> (r: StencilState)
    ensures
        r == spec_stencil_state(stencil),
{
    match stencil {
        None => StencilState::new(
            Comparison::Always,
            0,
            (StencilOp::Keep, StencilOp::Keep, StencilOp::Keep),
        ),
        Some(Stencil::Clip(_)) => StencilState::new(
            Comparison::Never,
            255,
            (StencilOp::Replace, StencilOp::Keep, StencilOp::Keep),
        ),
        Some(Stencil::Inside(_)) => StencilState::new(
            Comparison::Equal,
            255,
            (StencilOp::Keep, StencilOp::Keep, StencilOp::Keep),
        ),
        Some(Stencil::Outside(_)) => StencilState::new(
            Comparison::NotEqual,
            255,
            (StencilOp::Keep, StencilOp::Keep, StencilOp::Keep),
        ),
    }
}

/// The color write mask chosen for a clip mode: painting a clip mask
/// must touch only the stencil buffer, every other mode writes color.
pub open spec fn spec_color_mask(stencil: Option<Stencil>) -> ColorMask {
    match stencil {
        Some(Stencil::Clip(_)) => spec_mask_none(),
        _ => spec_mask_all(),
    }
}

/// Builds the color write mask chosen for a clip mode.
pub fn color_mask_for(stencil: Option<Stencil>) -> (r: ColorMask)
    ensures
        r == spec_color_mask(stencil),
{
    match stencil {
        Some(Stencil::Clip(_)) => ColorMask { red: false, green: false, blue: false, alpha: false },
        _ => ColorMask { red: true, green: true, blue: true, alpha: true },
    }
}

} // verus!
