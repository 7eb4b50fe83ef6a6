//! Procedural terrain engine: a grid of gradient directions that feeds a
//! gradient-noise height field, and the lattice topology that turns samples of
//! that field into a triangulated surface patch.
//!
//! The floating-point parts (trigonometry, interpolation, the window bounds
//! test on real coordinates) live with the renderer; this library holds the
//! integer logic that they rely on, with its contracts proved: the gradient
//! grid and its lookups, the mesh's points and index buffer, the decoding of
//! index data loaded from model files, and the choice of buffer-swap timing.

pub mod frame_pacing;
pub mod index_data;
pub mod mesh;
pub mod perlin_noise;
