//! The declarative per-draw state descriptor: blend mode, stencil-based
//! clip mode, and an optional scissor rectangle.

use vstd::prelude::*;

verus! {

/// The blend mode requested for a draw call.
#[derive(Clone, Copy, Debug, PartialEq, Eq, Structural)]
pub enum Blend {
    /// Alpha blending: source color weighted by source alpha.
    Alpha,
    /// Additive blending.
    Add,
    /// Multiplicative blending.
    Multiply,
    /// Inverted blending against a constant reference color.
    Invert,
}

/// The stencil-based clip mode requested for a draw call. Each variant
/// carries the 8-bit stencil reference value supplied by the caller.
#[derive(Clone, Copy, Debug, PartialEq, Eq, Structural)]
pub enum Stencil {
    /// Paint a clip mask: never pass the stencil comparison, always
    /// replace the stencil buffer with the carried value, and write no
    /// color.
    Clip(u8),
    /// Draw only where the stencil buffer equals the carried value.
    Inside(u8),
    /// Draw only where the stencil buffer differs from the carried value.
    Outside(u8),
}

/// The full per-draw state descriptor. `None` in a field selects the
/// default behavior: no blending, no stencil test, no scissor.
#[derive(Clone, Copy, Debug)]
pub struct DrawState {
    /// Blend mode, or `None` for no blending.
    pub blend: Option<Blend>,
    /// Stencil clip mode, or `None` for no stencil test.
    pub stencil: Option<Stencil>,
    /// Scissor rectangle as `[x, y, w, h]` in pixels, or `None` for an
    /// unbounded rectangle.
    pub scissor: Option<[u32; 4]>,
}

impl DrawState {
    /// A draw state with no blending, no stencil test and no scissor.
    pub fn new() -> (r: DrawState)
        ensures
            r.blend is None,
            r.stencil is None,
            r.scissor is None,
    {
        DrawState { blend: None, stencil: None, scissor: None }
    }
}

/// The stencil reference value carried by a clip descriptor: the carried
/// 8-bit value, or 0 when no stencil test is requested.
pub open spec fn stencil_ref_of(stencil: Option<Stencil>) -> u8 {
    match stencil {
        None => 0,
        Some(Stencil::Clip(v)) => v,
        Some(Stencil::Inside(v)) => v,
        Some(Stencil::Outside(v)) => v,
    }
}

} // verus!
