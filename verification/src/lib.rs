//! The verified core of a software rasteriser for procedural planets.
//!
//! Everything here is exact: packed colours, a framebuffer with its depth
//! test, the drawing of a frame's fragments, a reader for the lines of a
//! Wavefront OBJ file, the integer hashes behind the procedural noise, the
//! choice among the five planet shaders, and the layout of the overlay.
//!
//! No floating-point number is computed with. A depth or a coordinate is
//! carried as the bit pattern of a single-precision number (`scalar`), and
//! a number read from a file as the literal that the file gives for it
//! (`number`). Transforms, rasterisation and shading are the work of the
//! program around this library.

pub mod color;
pub mod framebuffer;
pub mod mesh;
pub mod noise;
pub mod number;
pub mod obj_loader;
pub mod render;
pub mod scalar;
pub mod shaders;
pub mod text;
pub mod ui;
pub mod vertex;
