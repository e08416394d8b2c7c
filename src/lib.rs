//! The decision logic of a freehand drawing board: a controller that turns
//! pointer, resize and toolbar events into the draw commands a 2D canvas
//! context performs, and a model of what those commands do to the surface.
pub mod style;
pub mod surface;
pub mod controller;
pub mod laws;
