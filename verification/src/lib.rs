//! Core of a 2D sprite batch renderer.
//!
//! Given an ordered list of textured, tinted quads ("sprites"), the library
//! computes everything a draw pass needs: the partition of the sprite list
//! into maximal contiguous same-texture runs (one draw call each), the
//! vertex and index data for every quad, the alignment-aware packing of
//! per-group uniform records into one shared buffer, and the grow-only
//! sizing of the GPU buffers that hold all of it. The caller owns the
//! graphics device; it applies each sprite's affine transform to the
//! local-space corners emitted here, uploads the byte buffers, and replays
//! the draw list against a render pass.

pub mod batch;
pub mod geometry;
pub mod pack;
pub mod pool;
pub mod renderer;
pub mod synth;
