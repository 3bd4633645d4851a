//! Fixed-point vector arithmetic.

pub mod vector;
