//! A small math library: vectors, complex numbers, quaternions, a 3x4
//! matrix and axis aligned bounding boxes, generic over a floating-point
//! scalar `F: num_traits::Float`.
//!
//! Every operation is a pure function of its inputs. Contracts state the
//! exact expression each result is computed by, in terms of the scalar
//! operations of [`scalar`] (`sum`, `diff`, `prod`, `quot`, `opp`), under the
//! condition [`scalar::exact`] that the scalar's operators follow their
//! specifications. Degenerate inputs (a zero vector to normalize, parallel
//! vectors for a rotation) are not errors: they give NaN or infinite
//! components.

/// The scalar operations the other types are built on.
pub mod scalar;
/// Angles.
pub mod ang;
/// Euclidean vectors.
pub mod vec;
/// Axis aligned bounding boxes.
pub mod aabb;
/// Matrices.
pub mod mat;

mod complex;
pub use complex::Complex;

mod quat;
pub use quat::{Quat, QuatT};
