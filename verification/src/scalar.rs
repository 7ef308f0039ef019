//! The numbers that rays are traced with.
use std::ops::{Add, Div, Mul, Neg, Sub};
use vstd::prelude::*;
use vstd::std_specs::cmp::{PartialOrdIs, PartialOrdSpec};
use vstd::std_specs::convert::FromSpec;
use vstd::std_specs::ops::{AddSpec, DivSpec, MulSpec, NegSpec, SubSpec};

verus! {

/// A number type to trace rays with: the arithmetic operators, `<` and `>`, a
/// conversion from `u32`, and the few functions of a real number that the
/// tracer calls.
///
/// The trait promises nothing of an implementation. What the kernel needs to
/// hold of one is gathered in [`lawful`], which every function that computes
/// takes as a precondition.
pub trait Scalar: Copy + PartialOrd + From<u32> + Add<Output = Self> + Sub<Output = Self> + Mul<
    Output = Self,
> + Div<Output = Self> + Neg<Output = Self> {
    /// The square root.
    fn sqrt(self) -> Self;

    /// The tangent of an angle given in radians.
    fn tan(self) -> Self;

    /// An angle given in degrees, converted to radians.
    fn to_radians(self) -> Self;

    /// The largest finite value of the type.
    fn largest() -> Self;

    /// The value that `sqrt` returns. An implementation that is verified says
    /// here what that value is.
    open spec fn sqrt_spec(self) -> Self {
        choose|r: Self| call_ensures(Self::sqrt, (self,), r)
    }

    /// The value that `tan` returns.
    open spec fn tan_spec(self) -> Self {
        choose|r: Self| call_ensures(Self::tan, (self,), r)
    }

    /// The value that `to_radians` returns.
    open spec fn to_radians_spec(self) -> Self {
        choose|r: Self| call_ensures(Self::to_radians, (self,), r)
    }

    /// The value that `largest` returns.
    open spec fn largest_spec() -> Self {
        choose|r: Self| call_ensures(Self::largest, (), r)
    }
}

/// The scalar that the integer `n` converts to.
pub open spec fn num<T: Scalar>(n: u32) -> T {
    <T as FromSpec<u32>>::from_spec(n)
}

/// One half: the quotient of the scalars one and two.
pub open spec fn half<T: Scalar>() -> T {
    num::<T>(1).div_spec(num::<T>(2))
}

/// `a < b`, as the type's own comparison decides it.
pub open spec fn lt<T: Scalar>(a: T, b: T) -> bool {
    a.is_lt(&b)
}

/// `a > b`, as the type's own comparison decides it.
pub open spec fn gt<T: Scalar>(a: T, b: T) -> bool {
    a.is_gt(&b)
}

/// `t` lies in the open interval from `t0` to `t1`.
pub open spec fn in_window<T: Scalar>(t: T, t0: T, t1: T) -> bool {
    lt(t, t1) && gt(t, t0)
}

/// Each operator returns the value that its `_spec` function gives.
pub open spec fn operators_exact<T: Scalar>() -> bool {
    &&& T::obeys_add_spec()
    &&& T::obeys_sub_spec()
    &&& T::obeys_mul_spec()
    &&& T::obeys_div_spec()
    &&& T::obeys_neg_spec()
    &&& T::obeys_partial_cmp_spec()
}

/// The conversion from `u32` returns the value that `from_spec` gives.
pub open spec fn conversion_exact<T: Scalar>() -> bool {
    <T as FromSpec<u32>>::obeys_from_spec()
}

/// No operator refuses any operand: none overflows, and division accepts every
/// divisor.
pub open spec fn operators_total<T: Scalar>() -> bool {
    &&& forall|a: T, b: T| #[trigger] a.add_req(b)
    &&& forall|a: T, b: T| #[trigger] a.sub_req(b)
    &&& forall|a: T, b: T| #[trigger] a.mul_req(b)
    &&& forall|a: T, b: T| #[trigger] a.div_req(b)
    &&& forall|a: T| #[trigger] a.neg_req()
}

/// The functions of the trait are functions: the same argument gives the same
/// result.
pub open spec fn functions_determined<T: Scalar>() -> bool {
    &&& forall|x: T, r: T| #[trigger] call_ensures(T::sqrt, (x,), r) ==> r == x.sqrt_spec()
    &&& forall|x: T, r: T| #[trigger] call_ensures(T::tan, (x,), r) ==> r == x.tan_spec()
    &&& forall|x: T, r: T| #[trigger]
        call_ensures(T::to_radians, (x,), r) ==> r == x.to_radians_spec()
    &&& forall|r: T| #[trigger] call_ensures(T::largest, (), r) ==> r == T::largest_spec()
}

/// `<` is a strict partial order, and `>` is its converse. Nothing is asked of
/// values that compare neither way.
pub open spec fn strictly_ordered<T: Scalar>() -> bool {
    &&& forall|a: T| !#[trigger] lt(a, a)
    &&& forall|a: T, b: T, c: T| #[trigger] lt(a, b) && #[trigger] lt(b, c) ==> lt(a, c)
    &&& forall|a: T, b: T| #[trigger] gt(a, b) <==> lt(b, a)
}

/// What the kernel asks of a number type: total, deterministic operators and
/// functions, and a strict order. `fixed::lemma_fixed_is_lawful` proves it of
/// fixed-point numbers.
pub open spec fn lawful<T: Scalar>() -> bool {
    &&& operators_exact::<T>()
    &&& conversion_exact::<T>()
    &&& operators_total::<T>()
    &&& functions_determined::<T>()
    &&& strictly_ordered::<T>()
}

/// The scalar for the integer `n`.
pub fn number<T: Scalar>(n: u32) -> (r: T)
    requires
        conversion_exact::<T>(),
    ensures
        r == num::<T>(n),
{
    T::from(n)
}

} // verus!
