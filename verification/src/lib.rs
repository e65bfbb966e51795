//! Verified core of a radar target display: the queue that carries target
//! records to the renderer, the geometry that turns millimetres into pixels,
//! the frame that is composed from them, and the protocol by which finished
//! frames change hands between the renderer and the display writer.

pub mod canvas;
pub mod exchange;
pub mod frame;
pub mod geometry;
pub mod handoff;
pub mod queue;
pub mod raster;
pub mod source;
