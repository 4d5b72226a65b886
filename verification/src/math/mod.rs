//! Small fixed-size linear-algebra values.

use vstd::prelude::*;

pub mod quat;
pub mod vec;

pub use quat::Quaternion;
pub use vec::Vector3;

verus! {

/// Types whose product with themselves is again of the same type.
pub trait ClosedMul: core::ops::Mul<Output = Self> + Sized {

}

/// Types whose sum with themselves is again of the same type.
pub trait ClosedAdd: core::ops::Add<Output = Self> + Sized {

}

impl<T> ClosedMul for T where T: core::ops::Mul<Output = T> + Sized {

}

impl<T> ClosedAdd for T where T: core::ops::Add<Output = T> + Sized {

}

} // verus!
