//! The renderer facade: owns the colored and textured pipeline
//! matrices and prepares draw calls. The compiled pipeline objects and
//! the command buffer belong to the graphics-API binding; they are
//! opaque type parameters here. Preparing a draw call means selecting
//! the pipeline and stencil reference for the draw state and computing
//! the scissor rectangle; the caller then uploads each batch and issues
//! one draw call per batch, with the vertex count this crate computes.

use vstd::prelude::*;
use crate::draw_state::{Blend, DrawState, Stencil, stencil_ref_of};
use crate::error::DrawError;
use crate::matrix::PsoStencil;
use crate::scissor::{Rect, scissor_fits, scissor_rect, spec_scissor};

verus! {

/// The data used for drawing 2D graphics: one precompiled pipeline
/// matrix for flat-colored draws (cell type `C`) and one for textured
/// draws (cell type `X`). Built once; only read afterwards.
pub struct Gfx2d<C, X> {
    /// The matrix of colored pipelines.
    pub colored: PsoStencil<C>,
    /// The matrix of textured pipelines.
    pub textured: PsoStencil<X>,
}

/// Whether a draw state's scissor request can be represented: absent,
/// or with all coordinates in the 16-bit range.
pub open spec fn scissor_ok(s: Option<[u32; 4]>) -> bool {
    match s {
        None => true,
        Some(a) => scissor_fits(a),
    }
}

/// The error a rejected scissor request maps to.
pub open spec fn spec_scissor_err(a: [u32; 4]) -> DrawError {
    DrawError::ScissorOutOfRange { x: a[0], y: a[1], w: a[2], h: a[3] }
}

impl<C, X> Gfx2d<C, X> {
    /// Creates the renderer data from its two pipeline matrices.
    pub fn new(colored: PsoStencil<C>, textured: PsoStencil<X>) -> (r: Gfx2d<C, X>)
        ensures
            r.colored == colored,
            r.textured == textured,
    {
        Gfx2d { colored, textured }
    }

    /// Prepares a flat-colored triangle-list draw: the colored pipeline
    /// of the draw state's (clip, blend) cell, the stencil reference
    /// value, and the scissor rectangle. Fails exactly when the scissor
    /// request is out of range; the renderer stays usable.
    pub fn tri_list<'a>(&'a self, d: &DrawState) -> (r: Result<(&'a C, u8, Rect), DrawError>)
        ensures
            scissor_ok(d.scissor) ==> (r matches Ok(t) && *t.0 == self.colored.cell(
                d.stencil,
                d.blend,
            ) && t.1 == stencil_ref_of(d.stencil) && t.2 == spec_scissor(d.scissor)),
            (match d.scissor {
                Some(a) => !scissor_fits(a) ==> r == Err::<(&'a C, u8, Rect), DrawError>(
                    spec_scissor_err(a),
                ),
                None => true,
            }),
    {
        let (pso, stencil_val) = self.colored.stencil_blend(d.stencil, d.blend);
        let rect = match scissor_rect(d.scissor) {
            Ok(rc) => rc,
            Err(e) => {
                return Err(e);
            },
        };
        Ok((pso, stencil_val, rect))
    }

    /// Prepares a textured triangle-list draw, as `tri_list` does, from
    /// the textured matrix.
    pub fn tri_list_uv<'a>(&'a self, d: &DrawState) -> (r: Result<(&'a X, u8, Rect), DrawError>)
        ensures
            scissor_ok(d.scissor) ==> (r matches Ok(t) && *t.0 == self.textured.cell(
                d.stencil,
                d.blend,
            ) && t.1 == stencil_ref_of(d.stencil) && t.2 == spec_scissor(d.scissor)),
            (match d.scissor {
                Some(a) => !scissor_fits(a) ==> r == Err::<(&'a X, u8, Rect), DrawError>(
                    spec_scissor_err(a),
                ),
                None => true,
            }),
    {
        let (pso, stencil_val) = self.textured.stencil_blend(d.stencil, d.blend);
        let rect = match scissor_rect(d.scissor) {
            Ok(rc) => rc,
            Err(e) => {
                return Err(e);
            },
        };
        Ok((pso, stencil_val, rect))
    }
}

} // verus!
