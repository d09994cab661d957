//! Points and directions in space, one `Scalar` per axis.

use crate::scalar::Scalar;
use vstd::prelude::*;

verus! {

/// A point or a displacement in three dimensions.
#[derive(Clone, Copy, Debug, PartialEq, Eq, Structural)]
pub struct Vector3 {
    pub x: Scalar,
    pub y: Scalar,
    pub z: Scalar,
}

impl Vector3 {
    /// The vector with the given components.
    pub open spec fn spec_new(x: Scalar, y: Scalar, z: Scalar) -> Vector3 {
        Vector3 { x, y, z }
    }

    /// The vector with the given components.
    #[verifier::when_used_as_spec(spec_new)]
    pub fn new(x: Scalar, y: Scalar, z: Scalar) -> (r: Vector3)
        ensures
            r == Vector3::spec_new(x, y, z),
    {
        Vector3 { x, y, z }
    }

    /// The origin.
    pub open spec fn spec_zero() -> Vector3 {
        Vector3 { x: Scalar::zero(), y: Scalar::zero(), z: Scalar::zero() }
    }

    /// The origin.
    #[verifier::when_used_as_spec(spec_zero)]
    pub fn zero() -> (r: Vector3)
        ensures
            r == Vector3::spec_zero(),
    {
        Vector3 { x: Scalar::zero(), y: Scalar::zero(), z: Scalar::zero() }
    }

    /// The sum, axis by axis.
    pub open spec fn spec_plus(self, rhs: Vector3) -> Vector3 {
        Vector3 { x: self.x.plus(rhs.x), y: self.y.plus(rhs.y), z: self.z.plus(rhs.z) }
    }

    /// The sum, axis by axis.
    #[verifier::when_used_as_spec(spec_plus)]
    pub fn plus(self, rhs: Vector3) -> (r: Vector3)
        ensures
            r == self.spec_plus(rhs),
    {
        Vector3 { x: self.x.plus(rhs.x), y: self.y.plus(rhs.y), z: self.z.plus(rhs.z) }
    }

    /// The difference, axis by axis.
    pub open spec fn spec_minus(self, rhs: Vector3) -> Vector3 {
        Vector3 { x: self.x.minus(rhs.x), y: self.y.minus(rhs.y), z: self.z.minus(rhs.z) }
    }

    /// The difference, axis by axis.
    #[verifier::when_used_as_spec(spec_minus)]
    pub fn minus(self, rhs: Vector3) -> (r: Vector3)
        ensures
            r == self.spec_minus(rhs),
    {
        Vector3 { x: self.x.minus(rhs.x), y: self.y.minus(rhs.y), z: self.z.minus(rhs.z) }
    }

    /// Every axis multiplied by `factor`.
    pub open spec fn spec_scaled(self, factor: Scalar) -> Vector3 {
        Vector3 { x: self.x.times(factor), y: self.y.times(factor), z: self.z.times(factor) }
    }

    /// Every axis multiplied by `factor`.
    #[verifier::when_used_as_spec(spec_scaled)]
    pub fn scaled(self, factor: Scalar) -> (r: Vector3)
        ensures
            r == self.spec_scaled(factor),
    {
        Vector3 { x: self.x.times(factor), y: self.y.times(factor), z: self.z.times(factor) }
    }

    /// The square of the length, in raw units squared.
    pub open spec fn norm_squared(self) -> int {
        self.x@ * self.x@ + self.y@ * self.y@ + self.z@ * self.z@
    }
}

} // verus!
