//! Verified control core of a Whitted-style ray tracer.
//!
//! The numeric kernels of a renderer (vector algebra, square roots, powers)
//! live with the caller. This library holds everything a renderer decides:
//! which root of an intersection counts, which surface is nearest, whether a
//! light is blocked, how a ray propagates and when propagation ends, and how
//! the finished pixels are laid out in a picture and in an image buffer.

pub mod nearest;
pub mod picture;
pub mod raster;
pub mod scene;
pub mod shading;
pub mod surface;
