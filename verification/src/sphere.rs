//! Spheres.
use crate::ray::{HitRec, Ray};
use crate::scalar::{gt, in_window, lt, num, number, strictly_ordered, Scalar};
use crate::shape::{
    clipped_at, is_nearest_hit, lemma_nearest_ignores_order, lemma_nearest_is_minimal, nearest,
    nearest_first, same_or_apart, Shape,
};
use crate::vector::Vector3;
use std::ops::Neg;
use vstd::prelude::*;
use vstd::std_specs::ops::{AddSpec, DivSpec, MulSpec, NegSpec, SubSpec};

verus! {

/// The sphere of all points at distance `radius` from `center`.
///
/// A radius that is zero or negative is not refused: the arithmetic is carried
/// out on it as on any other.
pub struct Sphere<T> {
    m_center: Vector3<T>,
    m_radius: T,
}

impl<T: Scalar> Sphere<T> {
    /// The sphere's centre.
    pub closed spec fn center(&self) -> Vector3<T> {
        self.m_center
    }

    /// The sphere's radius.
    pub closed spec fn radius(&self) -> T {
        self.m_radius
    }

    /// The sphere round `c` with radius `r`.
    pub fn new(c: Vector3<T>, r: T) -> (s: Self)
        ensures
            s.center() == c,
            s.radius() == r,
    {
        Self { m_center: c, m_radius: r }
    }

    /// The vector from the centre to the ray's origin.
    pub open spec fn offset(&self, ray: &Ray<T>) -> Vector3<T> {
        ray.origin.minus_spec(self.center())
    }

    /// The coefficient `a` of the quadratic in `t`: the direction dotted with
    /// itself.
    pub open spec fn quad_a(&self, ray: &Ray<T>) -> T {
        Vector3::dot_spec(ray.direction, ray.direction)
    }

    /// The coefficient `b`: twice the direction dotted with the offset.
    pub open spec fn quad_b(&self, ray: &Ray<T>) -> T {
        num::<T>(2).mul_spec(Vector3::dot_spec(ray.direction, self.offset(ray)))
    }

    /// The coefficient `c`: the offset dotted with itself, less the radius
    /// squared.
    pub open spec fn quad_c(&self, ray: &Ray<T>) -> T {
        Vector3::dot_spec(self.offset(ray), self.offset(ray)).sub_spec(
            self.radius().mul_spec(self.radius()),
        )
    }

    /// The discriminant `b * b - 4 * a * c` of the quadratic
    /// `|origin + t * direction - center|^2 = radius^2`.
    pub open spec fn discriminant(&self, ray: &Ray<T>) -> T {
        self.quad_b(ray).mul_spec(self.quad_b(ray)).sub_spec(
            num::<T>(4).mul_spec(self.quad_a(ray)).mul_spec(self.quad_c(ray)),
        )
    }

    /// The root `(-b - root) / (2 * a)`, where `root` stands for the square root
    /// of the discriminant.
    pub open spec fn near_root(&self, ray: &Ray<T>, root: T) -> T {
        self.quad_b(ray).neg_spec().sub_spec(root).div_spec(
            num::<T>(2).mul_spec(self.quad_a(ray)),
        )
    }

    /// The root `(-b + root) / (2 * a)`.
    pub open spec fn far_root(&self, ray: &Ray<T>, root: T) -> T {
        self.quad_b(ray).neg_spec().add_spec(root).div_spec(
            num::<T>(2).mul_spec(self.quad_a(ray)),
        )
    }

    /// The record of the ray meeting the sphere at parameter `t`: the point of
    /// the ray there, and the outward normal, which is that point less the
    /// centre, divided by the radius.
    pub open spec fn record_at(&self, ray: &Ray<T>, t: T) -> HitRec<T> {
        HitRec {
            t,
            p: ray.at_spec(t),
            n: ray.at_spec(t).minus_spec(self.center()).unscale_spec(self.radius()),
        }
    }

    /// The hit, given what the square root of the discriminant is: the near
    /// root if it lies in the window, else the far root if that one does, else
    /// nothing.
    pub open spec fn hit_with_root_spec(&self, ray: &Ray<T>, t0: T, t1: T, root: T) -> Option<
        HitRec<T>,
    > {
        if in_window(self.near_root(ray, root), t0, t1) {
            Some(self.record_at(ray, self.near_root(ray, root)))
        } else if in_window(self.far_root(ray, root), t0, t1) {
            Some(self.record_at(ray, self.far_root(ray, root)))
        } else {
            None
        }
    }

    /// What a ray hits of the sphere within a window. A discriminant that is
    /// not above zero is a miss, the tangent ray included.
    pub open spec fn sphere_hit_spec(&self, ray: &Ray<T>, t0: T, t1: T) -> Option<HitRec<T>> {
        if gt(self.discriminant(ray), num::<T>(0)) {
            self.hit_with_root_spec(ray, t0, t1, self.discriminant(ray).sqrt_spec())
        } else {
            None
        }
    }
}

impl<T: Scalar> Shape for Sphere<T> {
    type Num = T;

    open spec fn hit_spec(&self, ray: &Ray<T>, t0: T, t1: T) -> Option<HitRec<T>> {
        self.sphere_hit_spec(ray, t0, t1)
    }

    /// The first of the two points where `ray` pierces the sphere, the near
    /// root before the far one, that lies at a parameter strictly between `t0`
    /// and `t1`. A ray that only touches the sphere misses it. The normal
    /// points away from the centre, also where the ray comes from inside.
    fn hit(&self, ray: &Ray<T>, t0: T, t1: T) -> (r: Option<HitRec<T>>)
        ensures
            !gt(self.discriminant(ray), num::<T>(0)) ==> r is None,
            r matches Some(h) ==> h == self.record_at(ray, h.t),
    {
        let oc = ray.origin.minus(self.m_center);
        let a = Vector3::dot(ray.direction, ray.direction);
        let b = number::<T>(2) * Vector3::dot(ray.direction, oc);
        let c = Vector3::dot(oc, oc) - self.m_radius * self.m_radius;
        let d = b * b - number::<T>(4) * a * c;
        if d > number::<T>(0) {
            let root = d.sqrt();
            let near = (b.neg() - root) / (number::<T>(2) * a);
            if near < t1 && near > t0 {
                let p = ray.at(&near);
                return Some(HitRec::new(near, p, p.minus(self.m_center).unscale(self.m_radius)));
            }
            let far = (b.neg() + root) / (number::<T>(2) * a);
            if far < t1 && far > t0 {
                let p = ray.at(&far);
                return Some(HitRec::new(far, p, p.minus(self.m_center).unscale(self.m_radius)));
            }
            None
        } else {
            None
        }
    }
}

/// The sphere's two roots along `ray` come in order: where the discriminant
/// is above zero, the root that is tried first is the one that is tried
/// second, or lies below it. In the arithmetic of the real numbers this holds
/// of every ray whose direction is not zero.
pub open spec fn roots_in_order<T: Scalar>(sphere: Sphere<T>, ray: &Ray<T>) -> bool {
    gt(sphere.discriminant(ray), num::<T>(0)) ==> {
        let near = sphere.near_root(ray, sphere.discriminant(ray).sqrt_spec());
        let far = sphere.far_root(ray, sphere.discriminant(ray).sqrt_spec());
        near == far || lt(near, far)
    }
}

/// A sphere reports its smallest root in the window. Where the roots along
/// `ray` come in order, the sphere reports nothing exactly when neither root
/// lies in the window; otherwise it reports the record at a root in the
/// window, and no root in the window lies below that one.
pub proof fn lemma_sphere_reports_smallest_root<T: Scalar>(
    sphere: Sphere<T>,
    ray: &Ray<T>,
    t0: T,
    t1: T,
)
    requires
        strictly_ordered::<T>(),
        roots_in_order(sphere, ray),
        gt(sphere.discriminant(ray), num::<T>(0)),
    ensures
        ({
            let root = sphere.discriminant(ray).sqrt_spec();
            let near = sphere.near_root(ray, root);
            let far = sphere.far_root(ray, root);
            match sphere.hit_spec(ray, t0, t1) {
                None => !in_window(near, t0, t1) && !in_window(far, t0, t1),
                Some(h) => {
                    &&& h == sphere.record_at(ray, h.t)
                    &&& h.t == near || h.t == far
                    &&& in_window(h.t, t0, t1)
                    &&& in_window(near, t0, t1) ==> !lt(near, h.t)
                    &&& in_window(far, t0, t1) ==> !lt(far, h.t)
                },
            }
        }),
{
}

/// A sphere answers nearest first along every ray for which its roots come in
/// order.
pub proof fn lemma_sphere_nearest_first<T: Scalar>(sphere: Sphere<T>, ray: &Ray<T>, t0: T, t1: T)
    requires
        strictly_ordered::<T>(),
        roots_in_order(sphere, ray),
    ensures
        nearest_first(sphere, ray, t0, t1),
{
    let full = sphere.hit_spec(ray, t0, t1);
    assert forall|b: T| lt(b, t1) implies #[trigger] sphere.hit_spec(ray, t0, b) == clipped_at(
        full,
        b,
    ) by {
        if gt(sphere.discriminant(ray), num::<T>(0)) {
            let root = sphere.discriminant(ray).sqrt_spec();
            let near = sphere.near_root(ray, root);
            let far = sphere.far_root(ray, root);
            if in_window(near, t0, b) {
                // A root inside the short window lies inside the long one.
                assert(lt(near, t1));
            } else if in_window(far, t0, b) {
                // The far root lies before `b`, so the near one does: it was
                // refused for not lying after `t0`, whatever the window's end.
                assert(near == far || lt(near, b));
                assert(lt(far, t1));
            }
        }
    }
}

/// Among spheres the nearest hit wins: what a list of spheres reports is the
/// nearest hit among them, where their roots along `ray` come in order.
pub proof fn lemma_nearest_sphere_wins<T: Scalar>(
    spheres: Seq<Sphere<T>>,
    ray: &Ray<T>,
    t0: T,
    t1: T,
)
    requires
        strictly_ordered::<T>(),
        forall|i: int| 0 <= i < spheres.len() ==> roots_in_order(#[trigger] spheres[i], ray),
    ensures
        is_nearest_hit(nearest(spheres, ray, t0, t1), spheres, ray, t0, t1),
{
    assert forall|i: int| 0 <= i < spheres.len() implies nearest_first(
        #[trigger] spheres[i],
        ray,
        t0,
        t1,
    ) by {
        lemma_sphere_nearest_first(spheres[i], ray, t0, t1);
    }
    lemma_nearest_is_minimal(spheres, ray, t0, t1);
}

/// Among spheres the order does not matter. Two lists with the same spheres,
/// whose roots along `ray` come in order, report the same hit, provided that
/// no two of the spheres are hit at parameters that compare neither way.
pub proof fn lemma_sphere_order_is_immaterial<T: Scalar>(
    a: Seq<Sphere<T>>,
    b: Seq<Sphere<T>>,
    ray: &Ray<T>,
    t0: T,
    t1: T,
)
    requires
        strictly_ordered::<T>(),
        forall|i: int| 0 <= i < a.len() ==> roots_in_order(#[trigger] a[i], ray),
        forall|s: Sphere<T>| a.contains(s) <==> b.contains(s),
        forall|i: int, j: int|
            0 <= i < a.len() && 0 <= j < a.len() ==> same_or_apart(
                (#[trigger] a[i]).hit_spec(ray, t0, t1),
                (#[trigger] a[j]).hit_spec(ray, t0, t1),
            ),
    ensures
        nearest(a, ray, t0, t1) == nearest(b, ray, t0, t1),
{
    assert forall|i: int| 0 <= i < a.len() implies nearest_first(#[trigger] a[i], ray, t0, t1) by {
        lemma_sphere_nearest_first(a[i], ray, t0, t1);
    }
    lemma_nearest_ignores_order(a, b, ray, t0, t1);
}

} // verus!
