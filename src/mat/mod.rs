//! Matrices.
mod mat3x4;
pub use mat3x4::Mat3x4;
