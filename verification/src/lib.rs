//! A verified pipeline-selection and draw-preparation core for a 2D
//! triangle-list rendering back end.
//!
//! The library models draw states (blend mode, stencil-based clipping,
//! scissoring), a fixed matrix of precompiled pipeline objects, and the
//! per-draw decisions (which pipeline, which stencil reference, which
//! scissor rectangle, how many vertices) as plain data with proved
//! contracts. The graphics-API binding that compiles pipelines and
//! executes the prepared commands lives outside this crate.

pub mod draw_state;
pub mod error;
pub mod gfx2d;
pub mod formats;
pub mod matrix;
pub mod pso_state;
pub mod scissor;
pub mod vertices;
