//! Pixel arithmetic and a bounds-checked raster buffer for a small ray tracer.
//!
//! The colour rules (saturating channel arithmetic, the sky gradient's end
//! colours, the choice between hit colour and sky) and the pixel grid with its
//! byte layout live here and are proved against their contracts. Geometry on
//! real numbers and file handling are left to the program that uses this
//! library.

pub mod pixel;
pub mod image;
pub mod shading;
pub mod encode;
