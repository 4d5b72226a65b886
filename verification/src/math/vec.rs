use super::{ClosedAdd, ClosedMul};
use vstd::prelude::*;
use vstd::std_specs::ops::{AddSpec, MulSpec};

verus! {

/// A vector of three coordinates over any scalar type.
#[derive(Debug, PartialEq, Eq, Clone, Copy)]
pub struct Vector3<T> {
    pub x: T,
    pub y: T,
    pub z: T,
}

impl<T> Vector3<T> {
    /// Builds a vector from its coordinates.
    pub fn new(x: T, y: T, z: T) -> (v: Self)
        ensures
            v.x == x,
            v.y == y,
            v.z == z,
    {
        Self { x, y, z }
    }
}

impl<T: ClosedMul + ClosedAdd + Copy> Vector3<T> {
    /// The dot product as the scalar type's own `*` and `+` define it,
    /// summed from left to right.
    pub open spec fn dot_spec(self, other: Self) -> T {
        self.x.mul_spec(other.x).add_spec(self.y.mul_spec(other.y)).add_spec(
            self.z.mul_spec(other.z),
        )
    }

    /// Every product and partial sum of the dot product is admitted by the
    /// scalar type (for machine integers: none of them overflows).
    pub open spec fn dot_defined(self, other: Self) -> bool {
        &&& self.x.mul_req(other.x)
        &&& self.y.mul_req(other.y)
        &&& self.z.mul_req(other.z)
        &&& self.x.mul_spec(other.x).add_req(self.y.mul_spec(other.y))
        &&& self.x.mul_spec(other.x).add_spec(self.y.mul_spec(other.y)).add_req(
            self.z.mul_spec(other.z),
        )
    }

    pub fn dot(&self, other: &Self) -> (r: T)
        requires
            T::obeys_mul_spec(),
            T::obeys_add_spec(),
            self.dot_defined(*other),
        ensures
            r == self.dot_spec(*other),
    {
        self.x * other.x + self.y * other.y + self.z * other.z
    }
}

} // verus!
