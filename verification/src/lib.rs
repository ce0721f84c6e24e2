//! Quaternion algebra over IEEE-754 double-precision scalars.
//!
//! Every scalar is carried as the 64-bit pattern of an IEEE-754 binary64
//! value, so the verifier can state the exact data flow of each formula,
//! while the rounded floating-point arithmetic itself runs through a small
//! set of trusted bit-level primitives.

pub mod fp;
pub mod quaternion;

pub use quaternion::Quaternion;
pub use quaternion::Vector3;
