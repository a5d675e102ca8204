//! The scalar type of the kernel and comparison within a tolerance.
//!
//! Every type of this crate is generic in its scalar `T`. A scalar offers the
//! arithmetic operators, an order, and a conversion from small integers; the
//! contracts of the crate speak of what the operators return through the
//! specification functions that `vstd` attaches to them (`add_spec`, `mul_spec`
//! and so on), and of when they may be applied through `add_req`, `mul_req`
//! and so on. A contract therefore pins a result down for every scalar whose
//! operators are functions of their operands, which [`exact`] states. `vstd`
//! states this of the integer types of the machine. Of the floating types it
//! states nothing, since the bits of a NaN that an operator returns are not
//! determined by its operands.

use vstd::prelude::*;
use vstd::std_specs::ops::{AddSpec, SubSpec, MulSpec, DivSpec, NegSpec};
use vstd::std_specs::cmp::{PartialEqSpec, PartialOrdSpec, PartialOrdIs};
use vstd::std_specs::convert::FromSpec;
use std::ops::{Add, Sub, Mul, Div, Neg};
use num::{Float, ToPrimitive};

verus! {

/// What the kernel asks of a scalar: copying, the four operators and negation
/// closed over the type, a partial order, and a conversion from `i16` by which
/// the constants of the formulas are made.
pub trait Scalar: Copy + Add<Output = Self> + Sub<Output = Self> + Mul<Output = Self> + Div<
    Output = Self,
> + Neg<Output = Self> + PartialOrd + From<i16> {

}

impl<
    T: Copy + Add<Output = T> + Sub<Output = T> + Mul<Output = T> + Div<Output = T> + Neg<
        Output = T,
    > + PartialOrd + From<i16>,
> Scalar for T {

}

/// The operators, the comparisons and the conversion of `T` return what their
/// specification functions say.
pub open spec fn exact<T: Scalar>() -> bool {
    &&& T::obeys_add_spec()
    &&& T::obeys_sub_spec()
    &&& T::obeys_mul_spec()
    &&& T::obeys_div_spec()
    &&& T::obeys_neg_spec()
    &&& T::obeys_eq_spec()
    &&& T::obeys_partial_cmp_spec()
    &&& T::obeys_from_spec()
}

/// The comparisons and the conversion of `T` return what their
/// specification functions say.
pub open spec fn ordered<T: Scalar>() -> bool {
    &&& T::obeys_partial_cmp_spec()
    &&& T::obeys_from_spec()
}

/// The scalar that stands for the integer `n`.
pub open spec fn lit<T: Scalar>(n: i16) -> T {
    T::from_spec(n)
}

/// `a` is strictly below `b` in the order of `T`.
pub open spec fn lt<T: Scalar>(a: T, b: T) -> bool {
    a.is_lt(&b)
}

/// `a` is strictly above `b` in the order of `T`.
pub open spec fn gt<T: Scalar>(a: T, b: T) -> bool {
    a.is_gt(&b)
}

/// `a` and `b` are equal as `T` compares them.
pub open spec fn same<T: Scalar>(a: T, b: T) -> bool {
    a.eq_spec(&b)
}

/// `a` without its sign: `a` negated where it lies below zero.
pub open spec fn absolute<T: Scalar>(a: T) -> T {
    if lt(a, lit::<T>(0)) {
        a.neg_spec()
    } else {
        a
    }
}

/// One hundred thousand, the reciprocal of the tolerance.
pub open spec fn tolerance_divisor<T: Scalar>() -> T {
    lit::<T>(10000).mul_spec(lit::<T>(10))
}

/// The tolerance of every approximate comparison: one in a hundred thousand.
pub open spec fn tolerance<T: Scalar>() -> T {
    lit::<T>(1).div_spec(tolerance_divisor::<T>())
}

/// The operations that compute [`tolerance`] may be applied.
pub open spec fn tolerance_defined<T: Scalar>() -> bool {
    &&& lit::<T>(10000).mul_req(lit::<T>(10))
    &&& lit::<T>(1).div_req(tolerance_divisor::<T>())
}

/// `x` and `y` differ by less than the tolerance.
pub open spec fn close<T: Scalar>(x: T, y: T) -> bool {
    lt(absolute(x.sub_spec(y)), tolerance::<T>())
}

/// The operations that decide [`close`] may be applied.
pub open spec fn close_defined<T: Scalar>(x: T, y: T) -> bool {
    &&& x.sub_req(y)
    &&& lt(x.sub_spec(y), lit::<T>(0)) ==> x.sub_spec(y).neg_req()
    &&& tolerance_defined::<T>()
}

/// The scalar that stands for `n`.
pub fn constant<T: Scalar>(n: i16) -> (r: T)
    ensures
        T::obeys_from_spec() ==> r == lit::<T>(n),
{
    T::from(n)
}

/// `a` without its sign.
pub fn absolute_value<T: Scalar>(a: T) -> (r: T)
    requires
        exact::<T>(),
        lt(a, lit::<T>(0)) ==> a.neg_req(),
    ensures
        r == absolute(a),
{
    let zero: T = constant(0);
    if a < zero {
        a.neg()
    } else {
        a
    }
}

/// The tolerance of every approximate comparison.
pub fn epsilon<T: Scalar>() -> (r: T)
    requires
        exact::<T>(),
        tolerance_defined::<T>(),
    ensures
        r == tolerance::<T>(),
{
    let one: T = constant(1);
    let divisor: T = constant::<T>(10000) * constant::<T>(10);
    one / divisor
}

/// Whether two scalars are equal within the tolerance: the absolute value of
/// their difference lies strictly below it.
pub fn compare_floats<T: Scalar>(x: T, y: T) -> (r: bool)
    requires
        exact::<T>(),
        close_defined(x, y),
    ensures
        r == close(x, y),
{
    let distance = absolute_value(x - y);
    let eps: T = epsilon();
    distance < eps
}

/// `num::Float::sqrt`, the square root. Nothing is claimed of the value that
/// comes back; the call returns for every argument (a negative one included).
#[verifier::external_body]
pub(crate) fn square_root<T: Float>(x: T) -> (r: T) {
    x.sqrt()
}

/// `num::Float::cos`, the cosine of an angle in radians. Nothing is claimed of
/// the value that comes back.
#[verifier::external_body]
pub(crate) fn cosine<T: Float>(radians: T) -> (r: T) {
    radians.cos()
}

/// `num::Float::sin`, the sine of an angle in radians. Nothing is claimed of
/// the value that comes back.
#[verifier::external_body]
pub(crate) fn sine<T: Float>(radians: T) -> (r: T) {
    radians.sin()
}

/// `num::Float::ceil`, the least whole scalar that is not below the argument.
/// Nothing is claimed of the value that comes back.
#[verifier::external_body]
pub(crate) fn round_up<T: Float>(x: T) -> (r: T) {
    x.ceil()
}

/// `num::ToPrimitive::to_i32`, the conversion to a 32-bit integer, which
/// answers `None` where the scalar is not in that range. Nothing is claimed
/// of the answer.
#[verifier::external_body]
pub(crate) fn whole_part<T: Float>(x: T) -> (r: Option<i32>) {
    x.to_i32()
}

} // verus!
