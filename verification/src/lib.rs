//! A small real-time rendering engine core: quad batching, frame lifecycle and
//! presentation policy, stated over plain values and proved with Verus.
//!
//! Scalars that the GPU reads as 32-bit floats are carried as their IEEE-754
//! bit patterns (`u32`), so that the verified code never computes with them.

pub mod component;
pub mod debug;
pub mod engine;
pub mod input;
pub mod object;
pub mod renderer;

pub use renderer::QuadBatcher;
