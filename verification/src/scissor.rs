//! The scissor rectangle of a draw call. The platform takes scissor
//! coordinates as 16-bit unsigned values; an absent scissor becomes the
//! rectangle covering the whole representable extent, and a rectangle
//! that does not fit the range is rejected rather than wrapped.

use vstd::prelude::*;
use crate::error::DrawError;

verus! {

/// The largest representable scissor coordinate.
pub const COORD_MAX: u32 = 65535;

/// A pixel-space rectangle with 16-bit coordinates, as the command
/// buffer consumes it.
#[derive(Clone, Copy, Debug, PartialEq, Eq, Structural)]
pub struct Rect {
    pub x: u16,
    pub y: u16,
    pub w: u16,
    pub h: u16,
}

/// Whether all four coordinates of a scissor rectangle fit the 16-bit
/// range.
pub open spec fn scissor_fits(r: [u32; 4]) -> bool {
    r[0] <= COORD_MAX && r[1] <= COORD_MAX && r[2] <= COORD_MAX && r[3] <= COORD_MAX
}

/// The rectangle a draw state's scissor maps to: the full extent when
/// absent, the same coordinates when present (meaningful only when they
/// fit the 16-bit range).
pub open spec fn spec_scissor(s: Option<[u32; 4]>) -> Rect {
    match s {
        None => Rect { x: 0, y: 0, w: COORD_MAX as u16, h: COORD_MAX as u16 },
        Some(r) => Rect { x: r[0] as u16, y: r[1] as u16, w: r[2] as u16, h: r[3] as u16 },
    }
}

/// Computes the scissor rectangle of a draw call: the full 16-bit
/// extent when no scissor is requested, the requested rectangle when it
/// fits the range, and an error (never a wrapped value) when it does
/// not.
pub fn scissor_rect(s: Option<[u32; 4]>) -> (r: Result<Rect, DrawError>)
    ensures
        (match s {
            None => r == Ok::<Rect, DrawError>(spec_scissor(s)),
            Some(a) => if scissor_fits(a) {
                r == Ok::<Rect, DrawError>(spec_scissor(s))
            } else {
                r == Err::<Rect, DrawError>(
                    DrawError::ScissorOutOfRange { x: a[0], y: a[1], w: a[2], h: a[3] },
                )
            },
        }),
{
    match s {
        None => Ok(Rect { x: 0, y: 0, w: 65535, h: 65535 }),
        Some(a) => {
            if a[0] <= COORD_MAX && a[1] <= COORD_MAX && a[2] <= COORD_MAX && a[3] <= COORD_MAX {
                Ok(Rect { x: a[0] as u16, y: a[1] as u16, w: a[2] as u16, h: a[3] as u16 })
            } else {
                Err(DrawError::ScissorOutOfRange { x: a[0], y: a[1], w: a[2], h: a[3] })
            }
        }
    }
}

} // verus!
