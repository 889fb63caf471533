//! The parts of a small Whitted-style ray tracer that hold no floating-point
//! value: the recursion of the shading evaluator and its depth budget, the
//! pinhole camera's pixel grid and render pass, the scene container, the
//! row-major framebuffer, and the export of a finished image to PNG.
//! Intersection and shading arithmetic are supplied by the caller.

pub mod depth;
pub mod framebuffer;
pub mod camera;
pub mod export;
pub mod scene;
pub mod shading;
