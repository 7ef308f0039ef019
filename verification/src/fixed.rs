//! Fixed-point numbers: a number type for which the kernel's laws are proved.
use crate::ray::Ray;
use crate::scalar::{gt, lawful, lt, num, Scalar};
use crate::shape::{
    is_nearest_hit, lemma_nearest_ignores_order, lemma_nearest_is_minimal, nearest, nearest_first,
    same_or_apart, Shape,
};
use crate::sphere::{lemma_sphere_nearest_first, roots_in_order, Sphere};
use crate::vector::Vector3;
use std::cmp::Ordering;
use std::ops::{Add, Div, Mul, Neg, Sub};
use vstd::arithmetic::div_mod::lemma_div_is_ordered;
use vstd::prelude::*;
use vstd::std_specs::ops::{AddSpec, DivSpec, MulSpec, NegSpec, SubSpec};

verus! {

/// The number of raw units in one: two to the sixteenth.
pub const ONE: i64 = 65536;

/// A number with sixteen binary places after the point, held as the integer
/// `raw = value * 65536`. Arithmetic rounds towards zero and saturates at the
/// ends of the range of `i64`; dividing by zero gives the end of the range on
/// the dividend's side.
#[derive(Clone, Copy, Debug, PartialEq, Eq, Structural)]
pub struct Fixed {
    pub raw: i64,
}

/// `v`, or the end of the range of `i64` that it lies beyond.
pub open spec fn saturate(v: int) -> i64 {
    if v > i64::MAX {
        i64::MAX
    } else if v < i64::MIN {
        i64::MIN
    } else {
        v as i64
    }
}

/// The quotient of `n` by a positive `d`, rounded towards zero.
pub open spec fn toward_zero(n: int, d: int) -> int {
    if n >= 0 {
        n / d
    } else {
        -((-n) / d)
    }
}

/// The quotient of `n` by `d`, rounded towards zero, for a divisor of either
/// sign that is not zero.
pub open spec fn quotient(n: int, d: int) -> int {
    if d > 0 {
        toward_zero(n, d)
    } else {
        toward_zero(-n, -d)
    }
}

/// `r` is the whole part of the square root of `n`.
pub open spec fn is_floor_sqrt(r: int, n: int) -> bool {
    r >= 0 && r * r <= n && n < (r + 1) * (r + 1)
}

/// The whole part of the square root of `n`.
pub open spec fn floor_sqrt(n: int) -> int {
    choose|r: int| is_floor_sqrt(r, n)
}

/// A number has one whole square root at most.
pub proof fn lemma_floor_sqrt_unique(a: int, b: int, n: int)
    requires
        is_floor_sqrt(a, n),
        is_floor_sqrt(b, n),
    ensures
        a == b,
{
    if a < b {
        assert((a + 1) * (a + 1) <= b * b) by (nonlinear_arith)
            requires
                0 <= a + 1 <= b,
        ;
    } else if b < a {
        assert((b + 1) * (b + 1) <= a * a) by (nonlinear_arith)
            requires
                0 <= b + 1 <= a,
        ;
    }
}

fn saturating(v: i128) -> (r: i64)
    ensures
        r == saturate(v as int),
{
    if v > i64::MAX as i128 {
        i64::MAX
    } else if v < i64::MIN as i128 {
        i64::MIN
    } else {
        v as i64
    }
}

impl Fixed {
    /// The number with the given raw value.
    pub fn from_raw(raw: i64) -> (r: Fixed)
        ensures
            r.raw == raw,
    {
        Fixed { raw }
    }

    /// The sum, saturated.
    pub open spec fn plus(self, other: Fixed) -> Fixed {
        Fixed { raw: saturate(self.raw + other.raw) }
    }

    /// The difference, saturated.
    pub open spec fn minus(self, other: Fixed) -> Fixed {
        Fixed { raw: saturate(self.raw - other.raw) }
    }

    /// The number with the opposite sign, saturated.
    pub open spec fn negated(self) -> Fixed {
        Fixed { raw: saturate(-self.raw) }
    }

    /// The product, rounded towards zero and saturated.
    pub open spec fn times(self, other: Fixed) -> Fixed {
        Fixed { raw: saturate(toward_zero(self.raw * other.raw, ONE as int)) }
    }

    /// The quotient, rounded towards zero and saturated; for a divisor of
    /// zero, the largest number where the dividend is not negative, and the
    /// smallest where it is.
    pub open spec fn over(self, other: Fixed) -> Fixed {
        if other.raw == 0 {
            Fixed {
                raw: if self.raw >= 0 {
                    i64::MAX
                } else {
                    i64::MIN
                },
            }
        } else {
            Fixed { raw: saturate(quotient(self.raw * ONE, other.raw as int)) }
        }
    }

    /// The whole number `n`.
    pub open spec fn whole(n: u32) -> Fixed {
        Fixed { raw: (n * ONE) as i64 }
    }

    /// The square root, rounded down; zero for a negative number.
    pub open spec fn root(self) -> Fixed {
        if self.raw < 0 {
            Fixed { raw: 0 }
        } else {
            Fixed { raw: floor_sqrt(self.raw * ONE) as i64 }
        }
    }
}

impl vstd::std_specs::ops::AddSpecImpl for Fixed {
    open spec fn obeys_add_spec() -> bool {
        true
    }

    open spec fn add_req(self, other: Fixed) -> bool {
        true
    }

    open spec fn add_spec(self, other: Fixed) -> Fixed {
        self.plus(other)
    }
}

impl Add for Fixed {
    type Output = Fixed;

    fn add(self, other: Fixed) -> (r: Fixed)
        ensures
            r == self.plus(other),
    {
        Fixed { raw: saturating(self.raw as i128 + other.raw as i128) }
    }
}

impl vstd::std_specs::ops::SubSpecImpl for Fixed {
    open spec fn obeys_sub_spec() -> bool {
        true
    }

    open spec fn sub_req(self, other: Fixed) -> bool {
        true
    }

    open spec fn sub_spec(self, other: Fixed) -> Fixed {
        self.minus(other)
    }
}

impl Sub for Fixed {
    type Output = Fixed;

    fn sub(self, other: Fixed) -> (r: Fixed)
        ensures
            r == self.minus(other),
    {
        Fixed { raw: saturating(self.raw as i128 - other.raw as i128) }
    }
}

impl vstd::std_specs::ops::NegSpecImpl for Fixed {
    open spec fn obeys_neg_spec() -> bool {
        true
    }

    open spec fn neg_req(self) -> bool {
        true
    }

    open spec fn neg_spec(self) -> Fixed {
        self.negated()
    }
}

impl Neg for Fixed {
    type Output = Fixed;

    fn neg(self) -> (r: Fixed)
        ensures
            r == self.negated(),
    {
        Fixed { raw: saturating(-(self.raw as i128)) }
    }
}

impl vstd::std_specs::ops::MulSpecImpl for Fixed {
    open spec fn obeys_mul_spec() -> bool {
        true
    }

    open spec fn mul_req(self, other: Fixed) -> bool {
        true
    }

    open spec fn mul_spec(self, other: Fixed) -> Fixed {
        self.times(other)
    }
}

impl Mul for Fixed {
    type Output = Fixed;

    fn mul(self, other: Fixed) -> (r: Fixed)
        ensures
            r == self.times(other),
    {
        let a = self.raw as i128;
        let b = other.raw as i128;
        assert(-0x4000_0000_0000_0000_0000_0000_0000_0000 <= a * b
            <= 0x4000_0000_0000_0000_0000_0000_0000_0000) by (nonlinear_arith)
            requires
                -0x8000_0000_0000_0000 <= a <= 0x8000_0000_0000_0000,
                -0x8000_0000_0000_0000 <= b <= 0x8000_0000_0000_0000,
        ;
        Fixed { raw: saturating((a * b) / (ONE as i128)) }
    }
}

impl vstd::std_specs::ops::DivSpecImpl for Fixed {
    open spec fn obeys_div_spec() -> bool {
        true
    }

    open spec fn div_req(self, other: Fixed) -> bool {
        true
    }

    open spec fn div_spec(self, other: Fixed) -> Fixed {
        self.over(other)
    }
}

impl Div for Fixed {
    type Output = Fixed;

    fn div(self, other: Fixed) -> (r: Fixed)
        ensures
            r == self.over(other),
    {
        if other.raw == 0 {
            if self.raw >= 0 {
                Fixed { raw: i64::MAX }
            } else {
                Fixed { raw: i64::MIN }
            }
        } else {
            let n = (self.raw as i128) * (ONE as i128);
            let d = other.raw as i128;
            if d > 0 {
                Fixed { raw: saturating(n / d) }
            } else {
                Fixed { raw: saturating((-n) / (-d)) }
            }
        }
    }
}

impl vstd::std_specs::convert::FromSpecImpl<u32> for Fixed {
    open spec fn obeys_from_spec() -> bool {
        true
    }

    open spec fn from_spec(n: u32) -> Fixed {
        Fixed::whole(n)
    }
}

impl From<u32> for Fixed {
    fn from(n: u32) -> (r: Fixed)
        ensures
            r == Fixed::whole(n),
    {
        Fixed { raw: (n as i64) * ONE }
    }
}

impl vstd::std_specs::cmp::PartialOrdSpecImpl for Fixed {
    open spec fn obeys_partial_cmp_spec() -> bool {
        true
    }

    open spec fn partial_cmp_spec(&self, other: &Fixed) -> Option<Ordering> {
        if self.raw < other.raw {
            Some(Ordering::Less)
        } else if self.raw > other.raw {
            Some(Ordering::Greater)
        } else {
            Some(Ordering::Equal)
        }
    }
}

impl PartialOrd for Fixed {
    fn partial_cmp(&self, other: &Fixed) -> (r: Option<Ordering>) {
        if self.raw < other.raw {
            Some(Ordering::Less)
        } else if self.raw > other.raw {
            Some(Ordering::Greater)
        } else {
            Some(Ordering::Equal)
        }
    }
}

/// The whole part of the square root of `n`, by bisection.
fn whole_sqrt(n: u128) -> (r: u128)
    requires
        n < 0x1_0000_0000_0000_0000_0000,
    ensures
        is_floor_sqrt(r as int, n as int),
        r < 0x100_0000_0000,
{
    let mut lo: u128 = 0;
    let mut hi: u128 = 0x100_0000_0000;
    while hi - lo > 1
        invariant
            lo < hi <= 0x100_0000_0000,
            lo * lo <= n < hi * hi,
        decreases hi - lo,
    {
        let mid = lo + (hi - lo) / 2;
        assert(mid * mid < 0x1_0000_0000_0000_0000_0000) by (nonlinear_arith)
            requires
                mid < 0x100_0000_0000,
        ;
        if mid * mid <= n {
            lo = mid;
        } else {
            hi = mid;
        }
    }
    lo
}

impl Fixed {
    /// Pi, to sixteen binary places.
    pub open spec fn pi() -> Fixed {
        Fixed { raw: 205887 }
    }

    /// The angle in radians, for one in degrees: the angle times pi, over 180.
    pub open spec fn in_radians(self) -> Fixed {
        self.times(Fixed::pi()).over(Fixed::whole(180))
    }

    /// `x / d`, for a whole number `d`.
    pub open spec fn part(x: Fixed, d: u32) -> Fixed {
        x.over(Fixed::whole(d))
    }

    /// The sine, by the first four terms of its series round zero:
    /// `x * (1 - x^2/6 * (1 - x^2/20 * (1 - x^2/42)))`.
    pub open spec fn sine(self) -> Fixed {
        let one = Fixed::whole(1);
        let xx = self.times(self);
        self.times(
            one.minus(
                Fixed::part(xx, 6).times(
                    one.minus(Fixed::part(xx, 20).times(one.minus(Fixed::part(xx, 42)))),
                ),
            ),
        )
    }

    /// The cosine, by the first four terms of its series round zero:
    /// `1 - x^2/2 * (1 - x^2/12 * (1 - x^2/30))`.
    pub open spec fn cosine(self) -> Fixed {
        let one = Fixed::whole(1);
        let xx = self.times(self);
        one.minus(
            Fixed::part(xx, 2).times(
                one.minus(Fixed::part(xx, 12).times(one.minus(Fixed::part(xx, 30)))),
            ),
        )
    }

    /// The tangent, as the quotient of `sine` by `cosine`: meant for angles
    /// within an eighth of a turn of zero.
    pub open spec fn tangent(self) -> Fixed {
        self.sine().over(self.cosine())
    }
}

impl Scalar for Fixed {
    open spec fn sqrt_spec(self) -> Fixed {
        self.root()
    }

    open spec fn tan_spec(self) -> Fixed {
        self.tangent()
    }

    open spec fn to_radians_spec(self) -> Fixed {
        self.in_radians()
    }

    open spec fn largest_spec() -> Fixed {
        Fixed { raw: i64::MAX }
    }

    fn sqrt(self) -> (r: Fixed)
        ensures
            r == self.root(),
    {
        if self.raw < 0 {
            Fixed { raw: 0 }
        } else {
            let n = (self.raw as u128) * (ONE as u128);
            let r = whole_sqrt(n);
            proof {
                lemma_floor_sqrt_unique(r as int, floor_sqrt(n as int), n as int);
            }
            Fixed { raw: r as i64 }
        }
    }

    fn tan(self) -> (r: Fixed)
        ensures
            r == self.tangent(),
    {
        let one = Fixed::from(1);
        let xx = self * self;
        let sine = self * (one - xx / Fixed::from(6) * (one - xx / Fixed::from(20) * (one - xx
            / Fixed::from(42))));
        let cosine = one - xx / Fixed::from(2) * (one - xx / Fixed::from(12) * (one - xx
            / Fixed::from(30)));
        sine / cosine
    }

    fn to_radians(self) -> (r: Fixed)
        ensures
            r == self.in_radians(),
    {
        self * Fixed { raw: 205887 } / Fixed::from(180)
    }

    fn largest() -> (r: Fixed)
        ensures
            r == (Fixed { raw: i64::MAX }),
    {
        Fixed { raw: i64::MAX }
    }
}

/// Fixed-point numbers meet everything that the kernel asks of a number type,
/// and they compare as their raw values do.
pub proof fn lemma_fixed_is_lawful()
    ensures
        lawful::<Fixed>(),
        forall|a: Fixed, b: Fixed| #[trigger] lt(a, b) <==> a.raw < b.raw,
        forall|a: Fixed, b: Fixed| #[trigger] gt(a, b) <==> a.raw > b.raw,
{
}

/// Every number that is not negative has a whole square root.
pub proof fn lemma_floor_sqrt_exists(n: int)
    requires
        n >= 0,
    ensures
        is_floor_sqrt(floor_sqrt(n), n),
    decreases n,
{
    if n == 0 {
        assert(is_floor_sqrt(0, 0));
    } else {
        lemma_floor_sqrt_exists(n - 1);
        let r = floor_sqrt(n - 1);
        if (r + 1) * (r + 1) <= n {
            assert((r + 2) * (r + 2) == (r + 1) * (r + 1) + 2 * r + 3) by (nonlinear_arith);
            assert(is_floor_sqrt(r + 1, n));
        } else {
            assert(is_floor_sqrt(r, n));
        }
    }
}

/// Rounding towards zero keeps the order of the dividends.
proof fn lemma_toward_zero_is_ordered(a: int, b: int, d: int)
    requires
        a <= b,
        d > 0,
    ensures
        toward_zero(a, d) <= toward_zero(b, d),
{
    if a >= 0 {
        lemma_div_is_ordered(a, b, d);
    } else if b >= 0 {
        lemma_div_is_ordered(0, -a, d);
        lemma_div_is_ordered(0, b, d);
    } else {
        lemma_div_is_ordered(-b, -a, d);
    }
}

/// A quotient by a number that is not negative keeps the order of the
/// dividends.
proof fn lemma_over_is_ordered(a: Fixed, b: Fixed, d: Fixed)
    requires
        a.raw <= b.raw,
        d.raw >= 0,
    ensures
        a.over(d).raw <= b.over(d).raw,
{
    if d.raw > 0 {
        assert(a.raw * ONE <= b.raw * ONE) by (nonlinear_arith)
            requires
                a.raw <= b.raw,
                ONE == 65536,
        ;
        lemma_toward_zero_is_ordered(a.raw * ONE, b.raw * ONE, d.raw as int);
    }
}

/// A product of a number with itself is not negative, nor is a product of two
/// numbers that are not.
proof fn lemma_times_is_not_negative(a: Fixed, b: Fixed)
    requires
        a == b || (a.raw >= 0 && b.raw >= 0),
    ensures
        a.times(b).raw >= 0,
{
    assert(a.raw * b.raw >= 0) by (nonlinear_arith)
        requires
            a.raw == b.raw || (a.raw >= 0 && b.raw >= 0),
    ;
    lemma_div_is_ordered(0, a.raw * b.raw, ONE as int);
}

/// In fixed-point arithmetic the roots of every sphere along every ray come
/// in order.
pub proof fn lemma_fixed_roots_in_order(sphere: Sphere<Fixed>, ray: &Ray<Fixed>)
    ensures
        roots_in_order(sphere, ray),
{
    let d = sphere.discriminant(ray);
    if gt(d, num::<Fixed>(0)) {
        let n = d.raw * ONE;
        assert(n >= 0) by (nonlinear_arith)
            requires
                n == d.raw * ONE,
                d.raw > 0,
                ONE == 65536,
        ;
        lemma_floor_sqrt_exists(n);
        let r = floor_sqrt(n);
        assert(r < 0x100_0000_0000) by (nonlinear_arith)
            requires
                r >= 0,
                r * r <= n,
                n == d.raw * ONE,
                d.raw <= 0x7fff_ffff_ffff_ffff,
                ONE == 65536,
        ;
        let root = d.sqrt_spec();
        assert(root.raw == r);
        let dir = ray.direction;
        lemma_times_is_not_negative(dir.x, dir.x);
        lemma_times_is_not_negative(dir.y, dir.y);
        lemma_times_is_not_negative(dir.z, dir.z);
        let a = sphere.quad_a(ray);
        assert(a.raw >= 0);
        lemma_times_is_not_negative(num::<Fixed>(2), a);
        let den = num::<Fixed>(2).mul_spec(a);
        let nb = sphere.quad_b(ray).neg_spec();
        lemma_over_is_ordered(nb.sub_spec(root), nb.add_spec(root), den);
        let near = sphere.near_root(ray, root);
        let far = sphere.far_root(ray, root);
        assert(near.raw <= far.raw);
        assert(near == far || lt(near, far));
    }
}

/// Among spheres in fixed-point arithmetic the nearest hit wins, whatever the
/// spheres and the ray: what a list of spheres reports is the nearest hit
/// among them.
pub proof fn lemma_fixed_nearest_sphere_wins(
    spheres: Seq<Sphere<Fixed>>,
    ray: &Ray<Fixed>,
    t0: Fixed,
    t1: Fixed,
)
    ensures
        is_nearest_hit(nearest(spheres, ray, t0, t1), spheres, ray, t0, t1),
{
    lemma_fixed_is_lawful();
    assert forall|i: int| 0 <= i < spheres.len() implies nearest_first(
        #[trigger] spheres[i],
        ray,
        t0,
        t1,
    ) by {
        lemma_fixed_roots_in_order(spheres[i], ray);
        lemma_sphere_nearest_first(spheres[i], ray, t0, t1);
    }
    lemma_nearest_is_minimal(spheres, ray, t0, t1);
}

/// Among spheres in fixed-point arithmetic the order does not matter. Two
/// lists with the same spheres report the same hit, provided that no two of
/// the spheres are hit at one parameter with different records.
pub proof fn lemma_fixed_sphere_order_is_immaterial(
    a: Seq<Sphere<Fixed>>,
    b: Seq<Sphere<Fixed>>,
    ray: &Ray<Fixed>,
    t0: Fixed,
    t1: Fixed,
)
    requires
        forall|s: Sphere<Fixed>| a.contains(s) <==> b.contains(s),
        forall|i: int, j: int|
            0 <= i < a.len() && 0 <= j < a.len() ==> match (
                (#[trigger] a[i]).hit_spec(ray, t0, t1),
                (#[trigger] a[j]).hit_spec(ray, t0, t1),
            ) {
                (Some(x), Some(y)) => x.t == y.t ==> x == y,
                _ => true,
            },
    ensures
        nearest(a, ray, t0, t1) == nearest(b, ray, t0, t1),
{
    lemma_fixed_is_lawful();
    assert forall|i: int| 0 <= i < a.len() implies nearest_first(#[trigger] a[i], ray, t0, t1) by {
        lemma_fixed_roots_in_order(a[i], ray);
        lemma_sphere_nearest_first(a[i], ray, t0, t1);
    }
    assert forall|i: int, j: int| 0 <= i < a.len() && 0 <= j < a.len() implies same_or_apart(
        (#[trigger] a[i]).hit_spec(ray, t0, t1),
        (#[trigger] a[j]).hit_spec(ray, t0, t1),
    ) by {
        match (a[i].hit_spec(ray, t0, t1), a[j].hit_spec(ray, t0, t1)) {
            (Some(x), Some(y)) => {
                assert(x.t.raw == y.t.raw ==> x.t == y.t);
            },
            _ => {},
        }
    }
    lemma_nearest_ignores_order(a, b, ray, t0, t1);
}

} // verus!
