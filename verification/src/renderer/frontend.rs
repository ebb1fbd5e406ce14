//! The 2D front end: quads are gathered into batches, batches into draw calls.

pub mod batch;
pub mod overlay;
pub mod renderer;

pub use batch::{Quad, QuadBatchData, QuadBatcher, Vertex};
pub use renderer::Renderer2DSystem;
