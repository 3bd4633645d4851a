//! The simulation engine: particles, their integrator and the engines that
//! own them.

pub mod particle;
pub mod index;
pub mod world;
pub mod simulation;
pub mod timestep;
