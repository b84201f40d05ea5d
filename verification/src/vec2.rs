//! Vectors of the plane with single-precision coordinates.

use crate::scalar::Scalar;
use vstd::prelude::*;

verus! {

/// A vector of the plane. A plain value: no operation shares state between
/// its operands.
#[derive(Clone, Copy, Debug, PartialEq, Eq, Structural)]
pub struct Vec2 {
    pub x: Scalar,
    pub y: Scalar,
}

impl Vec2 {
    pub open spec fn spec_zero() -> Vec2 {
        Vec2 { x: Scalar::zero(), y: Scalar::zero() }
    }

    /// The coordinate-wise sum.
    pub open spec fn plus(self, other: Vec2) -> Vec2 {
        Vec2 { x: self.x.add(other.x), y: self.y.add(other.y) }
    }

    /// The coordinate-wise difference.
    pub open spec fn minus(self, other: Vec2) -> Vec2 {
        Vec2 { x: self.x.sub(other.x), y: self.y.sub(other.y) }
    }

    /// Both coordinates multiplied by `scalar`.
    pub open spec fn scaled(self, scalar: Scalar) -> Vec2 {
        Vec2 { x: self.x.mul(scalar), y: self.y.mul(scalar) }
    }

    /// The inner product: the products of the coordinates, added.
    pub open spec fn spec_dot(&self, other: Vec2) -> Scalar {
        self.x.mul(other.x).add(self.y.mul(other.y))
    }

    pub fn new(x: Scalar, y: Scalar) -> (r: Vec2)
        ensures
            r == (Vec2 { x, y }),
    {
        Vec2 { x, y }
    }

    /// The vector whose coordinates are both positive zero.
    #[verifier::when_used_as_spec(spec_zero)]
    pub fn zero() -> (r: Vec2)
        ensures
            r == Vec2::spec_zero(),
    {
        Vec2 { x: Scalar::zero(), y: Scalar::zero() }
    }

    /// Adds `other` to the vector, coordinate by coordinate.
    pub fn add(&mut self, other: Vec2)
        ensures
            *final(self) == old(self).plus(other),
    {
        self.x = self.x.add(other.x);
        self.y = self.y.add(other.y);
    }

    /// Subtracts `other` from the vector, coordinate by coordinate.
    pub fn sub(&mut self, other: Vec2)
        ensures
            *final(self) == old(self).minus(other),
    {
        self.x = self.x.sub(other.x);
        self.y = self.y.sub(other.y);
    }

    /// The inner product with `other`.
    #[verifier::when_used_as_spec(spec_dot)]
    pub fn dot(&self, other: Vec2) -> (r: Scalar)
        ensures
            r == self.spec_dot(other),
    {
        self.x.mul(other.x).add(self.y.mul(other.y))
    }

    /// Multiplies both coordinates by `scalar`.
    pub fn scale(&mut self, scalar: Scalar)
        ensures
            *final(self) == old(self).scaled(scalar),
    {
        self.x = self.x.mul(scalar);
        self.y = self.y.mul(scalar);
    }

    /// Overwrites both coordinates.
    pub fn set(&mut self, x: Scalar, y: Scalar)
        ensures
            *final(self) == (Vec2 { x, y }),
    {
        self.x = x;
        self.y = y;
    }
}

impl Default for Vec2 {
    /// The zero vector.
    fn default() -> (r: Vec2)
        ensures
            r == Vec2::zero(),
    {
        Vec2::zero()
    }
}

} // verus!
