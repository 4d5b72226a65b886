use vstd::prelude::*;

verus! {

/// A quaternion `w + xi + yj + zk` over any scalar type.
#[derive(Clone, Copy, Debug)]
pub struct Quaternion<T> {
    pub w: T,
    pub x: T,
    pub y: T,
    pub z: T,
}

impl<T> Quaternion<T> {
    /// Builds a quaternion from its scalar part and its three imaginary parts.
    pub fn new(w: T, x: T, y: T, z: T) -> (q: Self)
        ensures
            q.w == w,
            q.x == x,
            q.y == y,
            q.z == z,
    {
        Self { w, x, y, z }
    }
}

} // verus!
