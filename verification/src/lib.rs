//! Verified core of a small Vulkan renderer that draws one textured quad.
//!
//! Everything here works on plain values: raw Vulkan codes, bit masks and
//! 64-bit object handles. The program around this library performs the
//! driver calls and feeds their outcomes back in.

pub mod graphics;
pub mod log;
pub mod maths;
pub mod project;
pub mod text;
pub mod window;
