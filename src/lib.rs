//! A strided vector accumulation kernel, `y[iy] += conj(x[ix])` or `y[iy] += x[ix]`,
//! over integers of every width and complex numbers with `i32` or `i64` parts, with widening from the
//! source scalar type into the destination scalar type.
mod complex;
pub mod kernel;
pub mod laws;
pub mod scalar;

pub use kernel::addv;
pub use scalar::{Conjugate, Real, Scalar, Widen};
