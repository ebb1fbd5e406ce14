//! Rendering: the quad front end and the state of the graphics back end.

pub mod backend;
pub mod frontend;

pub use frontend::QuadBatcher;
