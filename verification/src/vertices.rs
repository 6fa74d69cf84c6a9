//! Per-batch vertex accounting for the two reusable dynamic vertex
//! buffers. A batch hands over flat sequences of two-component vertices
//! (interleaved x, y pairs); the draw call then covers exactly one
//! vertex per component pair. Batches beyond the buffers' fixed
//! capacity, and textured batches whose two sequences disagree on the
//! vertex count, are rejected with a structured error.

use vstd::prelude::*;
use crate::error::DrawError;

verus! {

/// Components per position vertex.
pub const POS_COMPONENTS: usize = 2;

/// Components per texture-coordinate vertex.
pub const UV_COMPONENTS: usize = 2;

/// The fixed capacity, in vertices, of each reusable vertex buffer.
pub const BUFFER_SIZE: usize = 1023;

/// The vertex count implied by a flat component sequence of the given
/// length.
pub open spec fn spec_vertex_count(components: usize) -> int {
    components as int / POS_COMPONENTS as int
}

/// Whether a batch of the given vertex count fits the reusable buffers.
pub open spec fn batch_fits(components: usize) -> bool {
    components <= POS_COMPONENTS * BUFFER_SIZE
}

/// The number of vertices one colored batch draws: one vertex per two
/// position components. A batch larger than the position buffer's
/// capacity is rejected.
pub fn colored_vertex_count(positions: usize) -> (r: Result<usize, DrawError>)
    ensures
        batch_fits(positions) ==> r == Ok::<usize, DrawError>((positions / POS_COMPONENTS) as usize),
        !batch_fits(positions) ==> r == Err::<usize, DrawError>(
            DrawError::BufferOverflow { vertices: (positions / POS_COMPONENTS) as usize },
        ),
        r matches Ok(n) ==> n == spec_vertex_count(positions) && n <= BUFFER_SIZE,
{
    let n = positions / POS_COMPONENTS;
    if positions <= POS_COMPONENTS * BUFFER_SIZE {
        Ok(n)
    } else {
        Err(DrawError::BufferOverflow { vertices: n })
    }
}

/// Whether the two flat sequences of a textured batch agree on the
/// vertex count, stated as the cross-stride equation over unbounded
/// integers: positions times the texture-coordinate stride must equal
/// texture coordinates times the position stride.
pub open spec fn uv_counts_agree(positions: usize, texture_coords: usize) -> bool {
    positions as int * UV_COMPONENTS as int == texture_coords as int * POS_COMPONENTS as int
}

/// The number of vertices one textured batch draws. A batch whose
/// position and texture-coordinate sequences imply different vertex
/// counts is a contract violation by the caller and is rejected before
/// anything is uploaded; a batch beyond the buffers' capacity is
/// rejected as well.
pub fn textured_vertex_count(positions: usize, texture_coords: usize) -> (r: Result<
    usize,
    DrawError,
>)
    ensures
        !uv_counts_agree(positions, texture_coords) ==> r == Err::<usize, DrawError>(
            DrawError::VertexCountMismatch { positions, texture_coords },
        ),
        (uv_counts_agree(positions, texture_coords) && batch_fits(positions)) ==> r == Ok::<
            usize,
            DrawError,
        >((positions / POS_COMPONENTS) as usize),
        (uv_counts_agree(positions, texture_coords) && !batch_fits(positions)) ==> r == Err::<
            usize,
            DrawError,
        >(DrawError::BufferOverflow { vertices: (positions / POS_COMPONENTS) as usize }),
        r matches Ok(n) ==> n == spec_vertex_count(positions) && n <= BUFFER_SIZE,
{
    if positions != texture_coords {
        assert(!uv_counts_agree(positions, texture_coords));
        return Err(DrawError::VertexCountMismatch { positions, texture_coords });
    }
    assert(uv_counts_agree(positions, texture_coords));
    colored_vertex_count(positions)
}

} // verus!
