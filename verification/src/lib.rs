//! Transform state for a single rotating triangle.
//!
//! The crate keeps the three matrices that place, view and project the
//! triangle, lays them out for upload to a shader, and decides what the frame
//! loop and the shader build do next. It is generic in the scalar type: it
//! moves scalars and never computes with them, so every statement it proves
//! is about where a value stands and when it changes.

pub mod matrix;
pub mod transform;
pub mod frame;
pub mod ratio;
pub mod shader;
pub mod camera;
