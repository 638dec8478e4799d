//! Quaternions and rigid transforms built on them.
mod rot;
mod tsl;
pub use rot::Quat;
pub use tsl::QuatT;
