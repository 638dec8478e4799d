//! Angles.
mod d3;
pub use d3::Ang3;
