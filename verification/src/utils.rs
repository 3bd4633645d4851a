//! Geometry and drawing on a pixel buffer.

pub mod geometry;
pub mod graphics;
pub mod loader;
