//! Three-component vectors and 3x3 matrices over IEEE-754 binary32 scalars.
//!
//! Every scalar is carried as the `u32` bit pattern of an IEEE-754 binary32
//! value, so that the structure of the arithmetic (which components combine,
//! in which order, and where each entry of a matrix lives) is stated and
//! proved exactly, while the rounding arithmetic itself is performed by a
//! software floating-point implementation behind a small trusted boundary.

pub mod matrix3d;
pub mod scalar;
pub mod vector3d;
