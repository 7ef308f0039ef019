//! The scene: a camera, the shapes it looks at, and the colour that a ray
//! resolves to.
use crate::camera::{Camera, CameraUVWBuilder};
use crate::ray::Ray;
use crate::scalar::{half, lawful, num, number, Scalar};
use crate::shape::{Shape, ShapeList};
use crate::sphere::Sphere;
use crate::vector::Vector3;
use std::ops::Neg;
use vstd::prelude::*;
use vstd::std_specs::ops::{AddSpec, DivSpec, MulSpec, NegSpec, SubSpec};

verus! {

/// The blend of `a` and `b` that is `a` at `t = 0` and `b` at `t = 1`:
/// `a * (1 - t) + b * t`.
pub open spec fn lerp_spec<T: Scalar>(t: T, a: Vector3<T>, b: Vector3<T>) -> Vector3<T> {
    a.scale_spec(num::<T>(1).sub_spec(t)).plus_spec(b.scale_spec(t))
}

/// The linear blend of `a` and `b` by `t`.
pub fn lerp<T: Scalar>(t: &T, a: &Vector3<T>, b: &Vector3<T>) -> (c: Vector3<T>)
    requires
        lawful::<T>(),
    ensures
        c == lerp_spec(*t, *a, *b),
{
    a.scale(number::<T>(1) - *t).plus(b.scale(*t))
}

/// The colour of the sky straight down, where the gradient starts: white.
pub open spec fn sky_white<T: Scalar>() -> Vector3<T> {
    Vector3::splat_spec(num::<T>(1))
}

/// The colour of the sky straight up, where the gradient ends: the blue
/// `(0.5, 0.7, 1)`, written as quotients of whole numbers.
pub open spec fn sky_blue<T: Scalar>() -> Vector3<T> {
    Vector3 { x: half::<T>(), y: num::<T>(7).div_spec(num::<T>(10)), z: num::<T>(1) }
}

/// The colour of the sky in the direction `d`: with `y` the height of the
/// normalised direction, the blend of white and blue by `0.5 * (y + 1)`.
pub open spec fn sky_spec<T: Scalar>(d: Vector3<T>) -> Vector3<T> {
    lerp_spec(
        half::<T>().mul_spec(d.normalize_spec().y.add_spec(num::<T>(1))),
        sky_white::<T>(),
        sky_blue::<T>(),
    )
}

/// The colour that stands for the surface normal `n`: `(n + (1, 1, 1)) * 0.5`.
pub open spec fn shade_spec<T: Scalar>(n: Vector3<T>) -> Vector3<T> {
    n.plus_spec(Vector3::splat_spec(num::<T>(1))).scale_spec(half::<T>())
}

/// A camera and the shape that it looks at.
pub struct Scene<S: Shape> {
    camera: Camera<S::Num>,
    world: S,
}

impl<S: Shape> Scene<S> {
    /// The scene's camera.
    pub closed spec fn camera(&self) -> Camera<S::Num> {
        self.camera
    }

    /// The shape that rays are traced against.
    pub closed spec fn world(&self) -> S {
        self.world
    }

    /// The scene of `world` seen through `camera`.
    pub fn with_world(camera: Camera<S::Num>, world: S) -> (s: Self)
        ensures
            s.camera() == camera,
            s.world() == world,
    {
        Scene { camera, world }
    }

    /// The scene's camera.
    pub fn get_camera(&self) -> (c: &Camera<S::Num>)
        ensures
            *c == self.camera(),
    {
        &self.camera
    }

    /// The colour of the sky in the direction `d`.
    pub fn background_sky(d: &Vector3<S::Num>) -> (c: Vector3<S::Num>)
        requires
            lawful::<S::Num>(),
        ensures
            c == sky_spec(*d),
    {
        let v = d.normalize();
        let one = number::<S::Num>(1);
        let half = one / number::<S::Num>(2);
        let t = half * (v.y + one);
        lerp(
            &t,
            &Vector3::splat(one),
            &Vector3::new(half, number::<S::Num>(7) / number::<S::Num>(10), one),
        )
    }

    /// What `color` returns for `r`: the shade of the normal where the ray
    /// hits the world at a parameter between zero and the largest number, and
    /// the sky in the ray's direction where it hits nothing.
    pub open spec fn color_spec(&self, r: &Ray<S::Num>) -> Vector3<S::Num> {
        match self.world().hit_spec(r, num::<S::Num>(0), S::Num::largest_spec()) {
            None => sky_spec(r.direction),
            Some(h) => shade_spec(h.n),
        }
    }

    /// The colour that the ray `r` resolves to.
    pub fn color(&self, r: &Ray<S::Num>) -> (c: Vector3<S::Num>)
        requires
            lawful::<S::Num>(),
        ensures
            c == self.color_spec(r),
    {
        match self.world.hit(r, number::<S::Num>(0), S::Num::largest()) {
            None => Self::background_sky(&r.direction),
            Some(h) => {
                let one = number::<S::Num>(1);
                h.n.plus(Vector3::splat(one)).scale(one / number::<S::Num>(2))
            },
        }
    }
}

/// `s` is the scene of two spheres: a small one of radius `0.5` round
/// `(0, 0, -1)`, and under it a large one of radius `100` round
/// `(0, -100.5, -1)`. The camera stands at the origin; its image plane has the
/// lower left corner `(-2, -1, -1)` and spans `(4, 0, 0)` by `(0, 2, 0)`.
pub open spec fn two_spheres<T: Scalar>(s: Scene<ShapeList<Sphere<T>>>) -> bool {
    &&& s.camera().origin() == Vector3::splat_spec(num::<T>(0))
    &&& s.camera().horizontal() == (Vector3 { x: num::<T>(4), y: num::<T>(0), z: num::<T>(0) })
    &&& s.camera().vertical() == (Vector3 { x: num::<T>(0), y: num::<T>(2), z: num::<T>(0) })
    &&& s.camera().corner() == (Vector3 {
        x: num::<T>(2).neg_spec(),
        y: num::<T>(1).neg_spec(),
        z: num::<T>(1).neg_spec(),
    })
    &&& s.world()@.len() == 2
    &&& s.world()@[0].center() == (Vector3 {
        x: num::<T>(0),
        y: num::<T>(0),
        z: num::<T>(1).neg_spec(),
    })
    &&& s.world()@[0].radius() == half::<T>()
    &&& s.world()@[1].center() == (Vector3 {
        x: num::<T>(0),
        y: num::<T>(201).div_spec(num::<T>(2)).neg_spec(),
        z: num::<T>(1).neg_spec(),
    })
    &&& s.world()@[1].radius() == num::<T>(100)
}

impl<T: Scalar> Scene<ShapeList<Sphere<T>>> {
    /// The scene of two spheres.
    pub fn new() -> (s: Self)
        requires
            lawful::<T>(),
        ensures
            two_spheres(s),
    {
        let zero = number::<T>(0);
        let one = number::<T>(1);
        let two = number::<T>(2);
        let mut builder = CameraUVWBuilder::new();
        let camera = builder.u(Vector3::new(number::<T>(4), zero, zero)).v(
            Vector3::new(zero, two, zero),
        ).w(Vector3::new(two.neg(), one.neg(), one.neg())).finalize();
        let mut world = ShapeList::<Sphere<T>>::new();
        world.add(Sphere::new(Vector3::new(zero, zero, one.neg()), one / two));
        world.add(
            Sphere::new(
                Vector3::new(zero, (number::<T>(201) / two).neg(), one.neg()),
                number::<T>(100),
            ),
        );
        Scene { camera, world }
    }
}

} // verus!
