//! Small fixed-size vectors and matrices, generic over the element type.

pub mod matrix;
pub mod vector;
