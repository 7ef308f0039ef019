//! Vectors of three components.
use crate::scalar::{lawful, Scalar};
use std::ops::{Add, Div, Mul, Sub};
use vstd::prelude::*;
use vstd::std_specs::ops::{AddSpec, DivSpec, MulSpec, SubSpec};

verus! {

/// A vector of three components of one type.
#[derive(Debug, PartialEq, Clone, Copy)]
pub struct Vector3<T> {
    pub x: T,
    pub y: T,
    pub z: T,
}

impl<T> Vector3<T> where T: Add<Output = T> + Sub<Output = T> + Mul<Output = T> + Copy {
    /// The vector with the components `x`, `y` and `z`.
    pub fn new(x: T, y: T, z: T) -> (v: Vector3<T>)
        ensures
            v == (Vector3 { x, y, z }),
    {
        Vector3 { x, y, z }
    }

    /// The dot product: the sum of the products of like components, added from
    /// `x` to `z`.
    pub open spec fn dot_spec(a: Vector3<T>, b: Vector3<T>) -> T {
        a.x.mul_spec(b.x).add_spec(a.y.mul_spec(b.y)).add_spec(a.z.mul_spec(b.z))
    }

    /// The operands of every operator that `dot` applies are accepted by it.
    pub open spec fn dot_req(a: Vector3<T>, b: Vector3<T>) -> bool {
        &&& a.x.mul_req(b.x)
        &&& a.y.mul_req(b.y)
        &&& a.z.mul_req(b.z)
        &&& a.x.mul_spec(b.x).add_req(a.y.mul_spec(b.y))
        &&& a.x.mul_spec(b.x).add_spec(a.y.mul_spec(b.y)).add_req(a.z.mul_spec(b.z))
    }

    /// The dot product of `a` and `b`.
    pub fn dot(a: Vector3<T>, b: Vector3<T>) -> (d: T)
        requires
            T::obeys_add_spec(),
            T::obeys_mul_spec(),
            Self::dot_req(a, b),
        ensures
            d == Self::dot_spec(a, b),
    {
        a.x * b.x + a.y * b.y + a.z * b.z
    }

    /// The cross product of `a` and `b`.
    pub open spec fn cross_spec(a: Vector3<T>, b: Vector3<T>) -> Vector3<T> {
        Vector3 {
            x: a.y.mul_spec(b.z).sub_spec(b.y.mul_spec(a.z)),
            y: a.z.mul_spec(b.x).sub_spec(b.z.mul_spec(a.x)),
            z: a.x.mul_spec(b.y).sub_spec(b.x.mul_spec(a.y)),
        }
    }

    /// The operands of every operator that `cross` applies are accepted by it.
    pub open spec fn cross_req(a: Vector3<T>, b: Vector3<T>) -> bool {
        &&& a.y.mul_req(b.z) && b.y.mul_req(a.z)
        &&& a.z.mul_req(b.x) && b.z.mul_req(a.x)
        &&& a.x.mul_req(b.y) && b.x.mul_req(a.y)
        &&& a.y.mul_spec(b.z).sub_req(b.y.mul_spec(a.z))
        &&& a.z.mul_spec(b.x).sub_req(b.z.mul_spec(a.x))
        &&& a.x.mul_spec(b.y).sub_req(b.x.mul_spec(a.y))
    }

    /// The cross product of `a` and `b`.
    pub fn cross(a: Vector3<T>, b: Vector3<T>) -> (c: Vector3<T>)
        requires
            T::obeys_sub_spec(),
            T::obeys_mul_spec(),
            Self::cross_req(a, b),
        ensures
            c == Self::cross_spec(a, b),
    {
        Vector3 {
            x: a.y * b.z - b.y * a.z,
            y: a.z * b.x - b.z * a.x,
            z: a.x * b.y - b.x * a.y,
        }
    }
}

impl<T> Vector3<T> where T: Add<Output = T> {
    /// The sum, component by component.
    pub open spec fn plus_spec(self, other: Vector3<T>) -> Vector3<T> {
        Vector3 {
            x: self.x.add_spec(other.x),
            y: self.y.add_spec(other.y),
            z: self.z.add_spec(other.z),
        }
    }

    /// `+` accepts each pair of like components.
    pub open spec fn plus_req(self, other: Vector3<T>) -> bool {
        self.x.add_req(other.x) && self.y.add_req(other.y) && self.z.add_req(other.z)
    }

    /// The sum of the two vectors.
    pub fn plus(self, other: Vector3<T>) -> (v: Vector3<T>)
        requires
            T::obeys_add_spec(),
            self.plus_req(other),
        ensures
            v == self.plus_spec(other),
    {
        Vector3 { x: self.x + other.x, y: self.y + other.y, z: self.z + other.z }
    }
}

impl<T> Vector3<T> where T: Sub<Output = T> {
    /// The difference, component by component.
    pub open spec fn minus_spec(self, other: Vector3<T>) -> Vector3<T> {
        Vector3 {
            x: self.x.sub_spec(other.x),
            y: self.y.sub_spec(other.y),
            z: self.z.sub_spec(other.z),
        }
    }

    /// `-` accepts each pair of like components.
    pub open spec fn minus_req(self, other: Vector3<T>) -> bool {
        self.x.sub_req(other.x) && self.y.sub_req(other.y) && self.z.sub_req(other.z)
    }

    /// The difference of the two vectors.
    pub fn minus(self, other: Vector3<T>) -> (v: Vector3<T>)
        requires
            T::obeys_sub_spec(),
            self.minus_req(other),
        ensures
            v == self.minus_spec(other),
    {
        Vector3 { x: self.x - other.x, y: self.y - other.y, z: self.z - other.z }
    }
}

impl<T> Vector3<T> where T: Mul<Output = T> + Copy {
    /// The vector with each component multiplied by `k`, the component on the
    /// left.
    pub open spec fn scale_spec(self, k: T) -> Vector3<T> {
        Vector3 { x: self.x.mul_spec(k), y: self.y.mul_spec(k), z: self.z.mul_spec(k) }
    }

    /// `*` accepts each component with `k`.
    pub open spec fn scale_req(self, k: T) -> bool {
        self.x.mul_req(k) && self.y.mul_req(k) && self.z.mul_req(k)
    }

    /// The vector scaled by `k`.
    pub fn scale(self, k: T) -> (v: Vector3<T>)
        requires
            T::obeys_mul_spec(),
            self.scale_req(k),
        ensures
            v == self.scale_spec(k),
    {
        Vector3 { x: self.x * k, y: self.y * k, z: self.z * k }
    }
}

impl<T> Vector3<T> where T: Div<Output = T> + Copy {
    /// The vector with each component divided by `k`.
    pub open spec fn unscale_spec(self, k: T) -> Vector3<T> {
        Vector3 { x: self.x.div_spec(k), y: self.y.div_spec(k), z: self.z.div_spec(k) }
    }

    /// `/` accepts each component with `k`.
    pub open spec fn unscale_req(self, k: T) -> bool {
        self.x.div_req(k) && self.y.div_req(k) && self.z.div_req(k)
    }

    /// The vector divided by `k`.
    pub fn unscale(self, k: T) -> (v: Vector3<T>)
        requires
            T::obeys_div_spec(),
            self.unscale_req(k),
        ensures
            v == self.unscale_spec(k),
    {
        Vector3 { x: self.x / k, y: self.y / k, z: self.z / k }
    }
}

impl<T> vstd::std_specs::ops::AddSpecImpl for Vector3<T> where T: Add<Output = T> {
    open spec fn obeys_add_spec() -> bool {
        T::obeys_add_spec()
    }

    open spec fn add_req(self, other: Vector3<T>) -> bool {
        self.plus_req(other)
    }

    open spec fn add_spec(self, other: Vector3<T>) -> Vector3<T> {
        self.plus_spec(other)
    }
}

/// `a + b` is `a.plus(b)`.
impl<T> Add for Vector3<T> where T: Add<Output = T> {
    type Output = Vector3<T>;

    fn add(self, other: Vector3<T>) -> (v: Vector3<T>)
        ensures
            T::obeys_add_spec() ==> v == self.plus_spec(other),
    {
        Vector3 { x: self.x + other.x, y: self.y + other.y, z: self.z + other.z }
    }
}

impl<T> vstd::std_specs::ops::SubSpecImpl for Vector3<T> where T: Sub<Output = T> {
    open spec fn obeys_sub_spec() -> bool {
        T::obeys_sub_spec()
    }

    open spec fn sub_req(self, other: Vector3<T>) -> bool {
        self.minus_req(other)
    }

    open spec fn sub_spec(self, other: Vector3<T>) -> Vector3<T> {
        self.minus_spec(other)
    }
}

/// `a - b` is `a.minus(b)`.
impl<T> Sub for Vector3<T> where T: Sub<Output = T> {
    type Output = Vector3<T>;

    fn sub(self, other: Vector3<T>) -> (v: Vector3<T>)
        ensures
            T::obeys_sub_spec() ==> v == self.minus_spec(other),
    {
        Vector3 { x: self.x - other.x, y: self.y - other.y, z: self.z - other.z }
    }
}

impl<T: Scalar> Vector3<T> {
    /// The vector whose three components are all `k`.
    pub open spec fn splat_spec(k: T) -> Vector3<T> {
        Vector3 { x: k, y: k, z: k }
    }

    /// The vector whose three components are all `k`.
    pub fn splat(k: T) -> (v: Vector3<T>)
        ensures
            v == Self::splat_spec(k),
    {
        Vector3 { x: k, y: k, z: k }
    }

    /// The length of the vector: the square root of its dot product with
    /// itself.
    pub open spec fn norm_spec(self) -> T {
        Self::dot_spec(self, self).sqrt_spec()
    }

    /// The length of the vector.
    pub fn norm(self) -> (n: T)
        requires
            lawful::<T>(),
        ensures
            n == self.norm_spec(),
    {
        Self::dot(self, self).sqrt()
    }

    /// The vector divided by its length. Nothing is tested: what the division
    /// makes of a vector of length zero is what comes out.
    pub open spec fn normalize_spec(self) -> Vector3<T> {
        self.unscale_spec(self.norm_spec())
    }

    /// The vector scaled to length one.
    pub fn normalize(self) -> (v: Vector3<T>)
        requires
            lawful::<T>(),
        ensures
            v == self.normalize_spec(),
    {
        self.unscale(self.norm())
    }
}

} // verus!
