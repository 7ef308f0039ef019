//! Rays and the record of where one meets a surface.
use crate::scalar::{lawful, Scalar};
use crate::vector::Vector3;
use vstd::prelude::*;

verus! {

/// Where a ray meets a surface: the parameter `t` along the ray, the point `p`
/// there, and the surface normal `n` at that point.
#[derive(Debug, PartialEq, Clone, Copy)]
pub struct HitRec<T> {
    pub t: T,
    pub p: Vector3<T>,
    pub n: Vector3<T>,
}

impl<T> HitRec<T> {
    /// The record with parameter `t`, point `p` and normal `n`.
    pub fn new(t: T, p: Vector3<T>, n: Vector3<T>) -> (h: Self)
        ensures
            h == (HitRec { t, p, n }),
    {
        Self { t, p, n }
    }
}

/// The line of points `origin + t * direction`. The direction is kept as
/// given, of whatever length.
#[derive(Debug, PartialEq, Clone, Copy)]
pub struct Ray<T> {
    pub origin: Vector3<T>,
    pub direction: Vector3<T>,
}

impl<T: Scalar> Ray<T> {
    /// The ray from `origin` along `direction`.
    pub fn new(origin: Vector3<T>, direction: Vector3<T>) -> (r: Ray<T>)
        ensures
            r == (Ray { origin, direction }),
    {
        Ray { origin, direction }
    }

    /// The point at parameter `t`: the origin plus the direction scaled by
    /// `t`, component by component.
    pub open spec fn at_spec(&self, t: T) -> Vector3<T> {
        self.origin.plus_spec(self.direction.scale_spec(t))
    }

    /// The point of the ray at parameter `t`.
    pub fn at(&self, t: &T) -> (p: Vector3<T>)
        requires
            lawful::<T>(),
        ensures
            p == self.at_spec(*t),
    {
        self.origin.plus(self.direction.scale(*t))
    }
}

} // verus!
