//! The falling-sand grid: one particle at most in each cell, addressed by
//! a single index.

pub mod grid;
pub mod particle;
