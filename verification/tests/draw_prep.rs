//! Tests of per-draw preparation: vertex counting, the textured
//! vertex/texture-coordinate agreement check, buffer capacity, and the
//! scissor rectangle.

use gfx_graphics::error::DrawError;
use gfx_graphics::scissor::{scissor_rect, Rect, COORD_MAX};
use gfx_graphics::vertices::{
    colored_vertex_count, textured_vertex_count, BUFFER_SIZE, POS_COMPONENTS, UV_COMPONENTS,
};

#[test]
fn six_components_are_three_vertices() {
    assert_eq!(colored_vertex_count(6), Ok(3));
}

#[test]
fn empty_batch_draws_nothing() {
    assert_eq!(colored_vertex_count(0), Ok(0));
}

#[test]
fn largest_batch_fits() {
    let most = POS_COMPONENTS * BUFFER_SIZE;
    assert_eq!(colored_vertex_count(most), Ok(BUFFER_SIZE));
}

#[test]
fn oversized_batch_is_rejected() {
    let too_many = POS_COMPONENTS * BUFFER_SIZE + 2;
    assert_eq!(
        colored_vertex_count(too_many),
        Err(DrawError::BufferOverflow { vertices: BUFFER_SIZE + 1 })
    );
}

#[test]
fn textured_counts_must_agree() {
    assert_eq!(
        textured_vertex_count(6, 2),
        Err(DrawError::VertexCountMismatch { positions: 6, texture_coords: 2 })
    );
}

#[test]
fn textured_agreeing_counts_draw() {
    assert_eq!(textured_vertex_count(6, 6), Ok(3));
    assert_eq!(textured_vertex_count(0, 0), Ok(0));
}

#[test]
fn textured_oversized_batch_is_rejected() {
    let too_many = UV_COMPONENTS * BUFFER_SIZE + 2;
    assert_eq!(
        textured_vertex_count(too_many, too_many),
        Err(DrawError::BufferOverflow { vertices: BUFFER_SIZE + 1 })
    );
}

#[test]
fn absent_scissor_covers_full_extent() {
    assert_eq!(
        scissor_rect(None),
        Ok(Rect { x: 0, y: 0, w: 65535, h: 65535 })
    );
}

#[test]
fn present_scissor_maps_losslessly() {
    assert_eq!(
        scissor_rect(Some([1, 2, 3, 4])),
        Ok(Rect { x: 1, y: 2, w: 3, h: 4 })
    );
    assert_eq!(
        scissor_rect(Some([COORD_MAX, COORD_MAX, COORD_MAX, COORD_MAX])),
        Ok(Rect { x: 65535, y: 65535, w: 65535, h: 65535 })
    );
}

#[test]
fn out_of_range_scissor_errors_instead_of_wrapping() {
    assert_eq!(
        scissor_rect(Some([1, 2, 3, 70000])),
        Err(DrawError::ScissorOutOfRange { x: 1, y: 2, w: 3, h: 70000 })
    );
    assert_eq!(
        scissor_rect(Some([65536, 0, 10, 10])),
        Err(DrawError::ScissorOutOfRange { x: 65536, y: 0, w: 10, h: 10 })
    );
}
