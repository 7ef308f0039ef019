//! The camera, which turns a place on the image plane into a ray, and the two
//! ways of building one.
use crate::ray::Ray;
use crate::scalar::{conversion_exact, lawful, num, number, Scalar};
use crate::vector::Vector3;
use vstd::prelude::*;
use vstd::std_specs::ops::{DivSpec, MulSpec};

verus! {

/// A camera: the point that every ray leaves from, and three vectors that
/// span the image plane. They are set when the camera is built and never
/// change.
pub struct Camera<T> {
    origin: Vector3<T>,
    uvw: [Vector3<T>; 3],
}

impl<T: Scalar> Camera<T> {
    /// The point that the camera's rays leave from.
    pub closed spec fn origin(&self) -> Vector3<T> {
        self.origin
    }

    /// The vector that spans the image plane from left to right.
    pub closed spec fn horizontal(&self) -> Vector3<T> {
        self.uvw@[0]
    }

    /// The vector that spans the image plane from bottom to top.
    pub closed spec fn vertical(&self) -> Vector3<T> {
        self.uvw@[1]
    }

    /// The lower left corner of the image plane.
    pub closed spec fn corner(&self) -> Vector3<T> {
        self.uvw@[2]
    }

    /// The ray through the place `(u, v)` of the image plane: it leaves from
    /// the camera's origin, and its direction is
    /// `corner + horizontal * u + vertical * v - origin`, summed in that order.
    pub open spec fn ray_spec(&self, u: T, v: T) -> Ray<T> {
        Ray {
            origin: self.origin(),
            direction: self.corner().plus_spec(self.horizontal().scale_spec(u)).plus_spec(
                self.vertical().scale_spec(v),
            ).minus_spec(self.origin()),
        }
    }

    /// The ray through the place `(u, v)` of the image plane, where `(0, 0)`
    /// is the lower left corner and `(1, 1)` the upper right. Places outside
    /// that square are taken as they come.
    pub fn get_ray(&self, u: &T, v: &T) -> (r: Ray<T>)
        requires
            lawful::<T>(),
        ensures
            r == self.ray_spec(*u, *v),
    {
        Ray::new(
            self.origin,
            self.uvw[2].plus(self.uvw[0].scale(*u)).plus(self.uvw[1].scale(*v)).minus(self.origin),
        )
    }
}

/// Builds a camera from the three vectors of its image plane and its origin,
/// which the camera takes over unchanged. Nothing is checked of them.
pub struct CameraUVWBuilder<T> {
    u: Vector3<T>,
    v: Vector3<T>,
    w: Vector3<T>,
    origin: Vector3<T>,
}

impl<T: Scalar> CameraUVWBuilder<T> {
    /// The horizontal vector that has been set.
    pub closed spec fn u_set(&self) -> Vector3<T> {
        self.u
    }

    /// The vertical vector that has been set.
    pub closed spec fn v_set(&self) -> Vector3<T> {
        self.v
    }

    /// The lower left corner that has been set.
    pub closed spec fn w_set(&self) -> Vector3<T> {
        self.w
    }

    /// The origin that has been set.
    pub closed spec fn origin_set(&self) -> Vector3<T> {
        self.origin
    }

    /// A builder with all four vectors zero.
    pub fn new() -> (b: CameraUVWBuilder<T>)
        ensures
            conversion_exact::<T>() ==> {
                &&& b.u_set() == Vector3::splat_spec(num::<T>(0))
                &&& b.v_set() == Vector3::splat_spec(num::<T>(0))
                &&& b.w_set() == Vector3::splat_spec(num::<T>(0))
                &&& b.origin_set() == Vector3::splat_spec(num::<T>(0))
            },
    {
        let zero = Vector3::splat(T::from(0));
        CameraUVWBuilder { u: zero, v: zero, w: zero, origin: zero }
    }

    /// Sets the horizontal vector.
    pub fn u(&mut self, u: Vector3<T>) -> (b: &mut CameraUVWBuilder<T>)
        ensures
            b.u_set() == u,
            b.v_set() == old(self).v_set(),
            b.w_set() == old(self).w_set(),
            b.origin_set() == old(self).origin_set(),
            *final(self) == *final(b),
    {
        self.u = u;
        self
    }

    /// Sets the vertical vector.
    pub fn v(&mut self, v: Vector3<T>) -> (b: &mut CameraUVWBuilder<T>)
        ensures
            b.u_set() == old(self).u_set(),
            b.v_set() == v,
            b.w_set() == old(self).w_set(),
            b.origin_set() == old(self).origin_set(),
            *final(self) == *final(b),
    {
        self.v = v;
        self
    }

    /// Sets the lower left corner.
    pub fn w(&mut self, w: Vector3<T>) -> (b: &mut CameraUVWBuilder<T>)
        ensures
            b.u_set() == old(self).u_set(),
            b.v_set() == old(self).v_set(),
            b.w_set() == w,
            b.origin_set() == old(self).origin_set(),
            *final(self) == *final(b),
    {
        self.w = w;
        self
    }

    /// Sets the origin.
    pub fn origin(&mut self, origin: Vector3<T>) -> (b: &mut CameraUVWBuilder<T>)
        ensures
            b.u_set() == old(self).u_set(),
            b.v_set() == old(self).v_set(),
            b.w_set() == old(self).w_set(),
            b.origin_set() == origin,
            *final(self) == *final(b),
    {
        self.origin = origin;
        self
    }

    /// The camera with the vectors that have been set.
    pub fn finalize(&self) -> (c: Camera<T>)
        ensures
            c.origin() == self.origin_set(),
            c.horizontal() == self.u_set(),
            c.vertical() == self.v_set(),
            c.corner() == self.w_set(),
    {
        Camera { origin: self.origin, uvw: [self.u, self.v, self.w] }
    }
}

/// Builds a camera from where it stands, what it looks at, which way is up,
/// its vertical field of view in degrees and the ratio of the image's width to
/// its height.
///
/// Nothing is checked of the settings. Where `vup` is parallel to the line of
/// sight, the cross product that `finalize` normalises has length zero, and
/// the camera holds whatever the division by zero gives.
pub struct CameraLookAtBuilder<T> {
    lookfrom: Vector3<T>,
    lookat: Vector3<T>,
    vup: Vector3<T>,
    vfov: T,
    aspect: T,
}

impl<T: Scalar> CameraLookAtBuilder<T> {
    /// The position that has been set.
    pub closed spec fn lookfrom_set(&self) -> Vector3<T> {
        self.lookfrom
    }

    /// The target that has been set.
    pub closed spec fn lookat_set(&self) -> Vector3<T> {
        self.lookat
    }

    /// The up direction that has been set.
    pub closed spec fn vup_set(&self) -> Vector3<T> {
        self.vup
    }

    /// The vertical field of view that has been set, in degrees.
    pub closed spec fn vfov_set(&self) -> T {
        self.vfov
    }

    /// The aspect ratio that has been set.
    pub closed spec fn aspect_set(&self) -> T {
        self.aspect
    }

    /// A builder that stands at the origin, looks at `(0, 0, 1)` with
    /// `(0, 1, 0)` up, and has a field of view of 30 degrees and an aspect
    /// ratio of 1.
    pub fn new() -> (b: CameraLookAtBuilder<T>)
        ensures
            conversion_exact::<T>() ==> {
                &&& b.lookfrom_set() == Vector3::splat_spec(num::<T>(0))
                &&& b.lookat_set() == (Vector3 { x: num::<T>(0), y: num::<T>(0), z: num::<T>(1) })
                &&& b.vup_set() == (Vector3 { x: num::<T>(0), y: num::<T>(1), z: num::<T>(0) })
                &&& b.vfov_set() == num::<T>(30)
                &&& b.aspect_set() == num::<T>(1)
            },
    {
        CameraLookAtBuilder {
            lookfrom: Vector3::splat(T::from(0)),
            lookat: Vector3::new(T::from(0), T::from(0), T::from(1)),
            vup: Vector3::new(T::from(0), T::from(1), T::from(0)),
            vfov: T::from(30),
            aspect: T::from(1),
        }
    }

    /// Sets where the camera stands.
    pub fn lookfrom(&mut self, lookfrom: Vector3<T>) -> (b: &mut Self)
        ensures
            b.lookfrom_set() == lookfrom,
            b.lookat_set() == old(self).lookat_set(),
            b.vup_set() == old(self).vup_set(),
            b.vfov_set() == old(self).vfov_set(),
            b.aspect_set() == old(self).aspect_set(),
            *final(self) == *final(b),
    {
        self.lookfrom = lookfrom;
        self
    }

    /// Sets the point that the camera looks at.
    pub fn lookat(&mut self, lookat: Vector3<T>) -> (b: &mut Self)
        ensures
            b.lookfrom_set() == old(self).lookfrom_set(),
            b.lookat_set() == lookat,
            b.vup_set() == old(self).vup_set(),
            b.vfov_set() == old(self).vfov_set(),
            b.aspect_set() == old(self).aspect_set(),
            *final(self) == *final(b),
    {
        self.lookat = lookat;
        self
    }

    /// Sets which way is up.
    pub fn vup(&mut self, vup: Vector3<T>) -> (b: &mut Self)
        ensures
            b.lookfrom_set() == old(self).lookfrom_set(),
            b.lookat_set() == old(self).lookat_set(),
            b.vup_set() == vup,
            b.vfov_set() == old(self).vfov_set(),
            b.aspect_set() == old(self).aspect_set(),
            *final(self) == *final(b),
    {
        self.vup = vup;
        self
    }

    /// Sets the vertical field of view, in degrees.
    pub fn vfov(&mut self, vfov: T) -> (b: &mut Self)
        ensures
            b.lookfrom_set() == old(self).lookfrom_set(),
            b.lookat_set() == old(self).lookat_set(),
            b.vup_set() == old(self).vup_set(),
            b.vfov_set() == vfov,
            b.aspect_set() == old(self).aspect_set(),
            *final(self) == *final(b),
    {
        self.vfov = vfov;
        self
    }

    /// Sets the ratio of the image's width to its height.
    pub fn aspect(&mut self, aspect: T) -> (b: &mut Self)
        ensures
            b.lookfrom_set() == old(self).lookfrom_set(),
            b.lookat_set() == old(self).lookat_set(),
            b.vup_set() == old(self).vup_set(),
            b.vfov_set() == old(self).vfov_set(),
            b.aspect_set() == aspect,
            *final(self) == *final(b),
    {
        self.aspect = aspect;
        self
    }

    /// Half the height of the image plane at distance one: the tangent of
    /// half the field of view.
    pub open spec fn half_height(&self) -> T {
        self.vfov_set().to_radians_spec().div_spec(num::<T>(2)).tan_spec()
    }

    /// Half the width of the image plane at distance one.
    pub open spec fn half_width(&self) -> T {
        self.aspect_set().mul_spec(self.half_height())
    }

    /// The unit vector from the target back to the camera.
    pub open spec fn back(&self) -> Vector3<T> {
        self.lookfrom_set().minus_spec(self.lookat_set()).normalize_spec()
    }

    /// The unit vector to the camera's right.
    pub open spec fn right(&self) -> Vector3<T> {
        Vector3::cross_spec(self.vup_set(), self.back()).normalize_spec()
    }

    /// The camera's own up vector.
    pub open spec fn up(&self) -> Vector3<T> {
        Vector3::cross_spec(self.back(), self.right())
    }

    /// The camera that stands at `lookfrom` and looks at `lookat`: its image
    /// plane lies at distance one, is `2 * half_width` wide along `right` and
    /// `2 * half_height` high along `up`, and has its lower left corner at
    /// `lookfrom - right * half_width - up * half_height - back`.
    pub fn finalize(&self) -> (c: Camera<T>)
        requires
            lawful::<T>(),
        ensures
            c.origin() == self.lookfrom_set(),
            c.horizontal() == self.right().scale_spec(num::<T>(2).mul_spec(self.half_width())),
            c.vertical() == self.up().scale_spec(num::<T>(2).mul_spec(self.half_height())),
            c.corner() == self.lookfrom_set().minus_spec(
                self.right().scale_spec(self.half_width()),
            ).minus_spec(self.up().scale_spec(self.half_height())).minus_spec(self.back()),
    {
        let half_h = (self.vfov.to_radians() / number::<T>(2)).tan();
        let half_w = self.aspect * half_h;
        let w = self.lookfrom.minus(self.lookat).normalize();
        let u = Vector3::cross(self.vup, w).normalize();
        let v = Vector3::cross(w, u);
        Camera {
            origin: self.lookfrom,
            uvw: [
                u.scale(number::<T>(2) * half_w),
                v.scale(number::<T>(2) * half_h),
                self.lookfrom.minus(u.scale(half_w)).minus(v.scale(half_h)).minus(w),
            ],
        }
    }
}

} // verus!
