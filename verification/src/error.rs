//! Errors reported for draw calls whose inputs violate the caller's
//! contract. These abort only the offending draw call; the renderer
//! stays usable afterwards.

use vstd::prelude::*;

verus! {

/// An input-contract violation detected while preparing a draw call.
#[derive(Clone, Copy, Debug, PartialEq, Eq, Structural)]
pub enum DrawError {
    /// A scissor coordinate does not fit the 16-bit range the platform
    /// requires. Carries the rejected rectangle as `x, y, w, h`.
    ScissorOutOfRange { x: u32, y: u32, w: u32, h: u32 },
    /// A textured batch whose position and texture-coordinate sequences
    /// imply different vertex counts. Carries both component counts.
    VertexCountMismatch { positions: usize, texture_coords: usize },
    /// A batch holding more vertices than the fixed capacity of the
    /// reusable vertex buffers. Carries the offending vertex count.
    BufferOverflow { vertices: usize },
}

} // verus!
