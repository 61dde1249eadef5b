//! The scalar a vertex or a matrix is made of, and how two scalars are compared.
//!
//! Nothing here fixes a number type. A scalar is any `Copy` type with the five
//! arithmetic operators, a comparison and a conversion from small integers.
//! Contracts speak of the operators through the specification functions that
//! `vstd` attaches to them (`add_spec`, `mul_spec`, ...), so they say exactly
//! which operations are applied to which operands, in which order.
//!
//! An operator may refuse operands: the addition of machine integers refuses
//! a pair whose sum overflows. Each function therefore asks, next to
//! [`specified`], that the operations it performs are permitted; the
//! predicates that say so end in `_defined`. Where the arithmetic accepts
//! every operand they all hold.

use core::cmp::Ordering;
use vstd::prelude::*;
use vstd::std_specs::cmp::{PartialEqSpec, PartialOrdSpec};
use vstd::std_specs::convert::FromSpec;
use vstd::std_specs::ops::{AddSpec, DivSpec, MulSpec, NegSpec, SubSpec};

verus! {

/// What the geometry is computed over: every type with these operators is a
/// scalar.
pub trait Scalar:
    Copy
    + PartialEq
    + PartialOrd
    + From<i8>
    + core::ops::Add<Output = Self>
    + core::ops::Sub<Output = Self>
    + core::ops::Mul<Output = Self>
    + core::ops::Div<Output = Self>
    + core::ops::Neg<Output = Self>
{
}

impl<T> Scalar for T where
    T: Copy
        + PartialEq
        + PartialOrd
        + From<i8>
        + core::ops::Add<Output = T>
        + core::ops::Sub<Output = T>
        + core::ops::Mul<Output = T>
        + core::ops::Div<Output = T>
        + core::ops::Neg<Output = T>,
{
}

/// The scalar that the small integer `n` converts to.
pub open spec fn num<T: Scalar>(n: i8) -> T {
    T::from_spec(n)
}

/// The operators, the comparisons and the conversion of `T` are functions of
/// their operands: each returns what its specification says.
pub open spec fn specified<T: Scalar>() -> bool {
    &&& T::obeys_add_spec()
    &&& T::obeys_sub_spec()
    &&& T::obeys_mul_spec()
    &&& T::obeys_div_spec()
    &&& T::obeys_neg_spec()
    &&& T::obeys_from_spec()
    &&& T::obeys_eq_spec()
    &&& T::obeys_partial_cmp_spec()
}

/// Every operator of `T` accepts every pair of operands.
pub open spec fn total_arithmetic<T: Scalar>() -> bool {
    &&& forall|a: T, b: T| #[trigger] a.add_req(b)
    &&& forall|a: T, b: T| #[trigger] a.sub_req(b)
    &&& forall|a: T, b: T| #[trigger] a.mul_req(b)
    &&& forall|a: T, b: T| #[trigger] a.div_req(b)
    &&& forall|a: T| #[trigger] a.neg_req()
}

/// Zero and one treat the scalar `a` as they do in a ring: one times `a` is
/// `a`, a product of `a` with zero is zero, and `a` plus zero is `a`.
pub open spec fn regular<T: Scalar>(a: T) -> bool {
    &&& num::<T>(1).mul_spec(a) == a
    &&& num::<T>(0).mul_spec(a) == num::<T>(0)
    &&& a.mul_spec(num::<T>(0)) == num::<T>(0)
    &&& a.add_spec(num::<T>(0)) == a
    &&& num::<T>(0).add_spec(a) == a
}

/// Zero and one are neutral for addition and multiplication, and a product
/// with zero is zero.
pub open spec fn neutral_elements<T: Scalar>() -> bool {
    &&& forall|a: T| #[trigger] num::<T>(1).mul_spec(a) == a
    &&& forall|a: T| #[trigger] a.mul_spec(num::<T>(1)) == a
    &&& forall|a: T| #[trigger] num::<T>(0).mul_spec(a) == num::<T>(0)
    &&& forall|a: T| #[trigger] a.mul_spec(num::<T>(0)) == num::<T>(0)
    &&& forall|a: T| #[trigger] a.add_spec(num::<T>(0)) == a
    &&& forall|a: T| #[trigger] num::<T>(0).add_spec(a) == a
}

/// Subtracting zero changes nothing.
pub open spec fn zero_subtracts_nothing<T: Scalar>() -> bool {
    forall|a: T| #[trigger] a.sub_spec(num::<T>(0)) == a
}

/// The order of the two factors of a product does not matter.
pub open spec fn multiplication_commutes<T: Scalar>() -> bool {
    forall|a: T, b: T| #[trigger] a.mul_spec(b) == b.mul_spec(a)
}

/// Addition is associative and commutative, multiplication is associative and
/// distributes over addition from both sides.
#[verifier::opaque]
pub open spec fn ring_laws<T: Scalar>() -> bool {
    &&& forall|a: T, b: T| #[trigger] a.add_spec(b) == b.add_spec(a)
    &&& forall|a: T, b: T, c: T| #[trigger] a.add_spec(b).add_spec(c) == a.add_spec(b.add_spec(c))
    &&& forall|a: T, b: T, c: T| #[trigger] a.mul_spec(b).mul_spec(c) == a.mul_spec(b.mul_spec(c))
    &&& forall|a: T, b: T, c: T|
        #[trigger] a.mul_spec(b.add_spec(c)) == a.mul_spec(b).add_spec(a.mul_spec(c))
    &&& forall|a: T, b: T, c: T|
        #[trigger] a.add_spec(b).mul_spec(c) == a.mul_spec(c).add_spec(b.mul_spec(c))
}

/// The laws of a field: those of a commutative ring with one, subtraction as
/// the addition of the negation, and a division by every scalar other than
/// zero that undoes the multiplication.
#[verifier::opaque]
pub open spec fn field_laws<T: Scalar>() -> bool {
    &&& ring_laws::<T>()
    &&& multiplication_commutes::<T>()
    &&& neutral_elements::<T>()
    &&& forall|a: T, b: T| #[trigger] a.sub_spec(b) == a.add_spec(b.neg_spec())
    &&& forall|a: T| #[trigger] a.add_spec(a.neg_spec()) == num::<T>(0)
    &&& forall|a: T, b: T, d: T|
        !d.eq_spec(&num::<T>(0)) ==> #[trigger] a.mul_spec(b.div_spec(d)) == a.mul_spec(
            b,
        ).div_spec(d)
    &&& forall|a: T, b: T, d: T|
        !d.eq_spec(&num::<T>(0)) ==> #[trigger] a.div_spec(d).add_spec(b.div_spec(d))
            == a.add_spec(b).div_spec(d)
    &&& forall|d: T| !d.eq_spec(&num::<T>(0)) ==> #[trigger] d.div_spec(d) == num::<T>(1)
}

/// `a < b`.
pub open spec fn less<T: Scalar>(a: T, b: T) -> bool {
    a.partial_cmp_spec(&b) == Some(Ordering::Less)
}

/// `a` with its sign dropped: `-a` where `a < 0`, else `a`.
pub open spec fn magnitude<T: Scalar>(a: T) -> T {
    if less(a, num::<T>(0)) {
        a.neg_spec()
    } else {
        a
    }
}

/// `a` may be negated where it is below zero.
pub open spec fn magnitude_defined<T: Scalar>(a: T) -> bool {
    less(a, num::<T>(0)) ==> a.neg_req()
}

/// The tolerance of every approximate comparison: one divided by ten
/// thousand, computed in `T`.
pub open spec fn tolerance<T: Scalar>() -> T {
    num::<T>(1).div_spec(num::<T>(100).mul_spec(num::<T>(100)))
}

/// The product and the quotient that make the tolerance are permitted.
pub open spec fn tolerance_defined<T: Scalar>() -> bool {
    &&& num::<T>(100).mul_req(num::<T>(100))
    &&& num::<T>(1).div_req(num::<T>(100).mul_spec(num::<T>(100)))
}

/// `a` and `b` differ by less than the tolerance.
pub open spec fn close<T: Scalar>(a: T, b: T) -> bool {
    less(magnitude(a.sub_spec(b)), tolerance::<T>())
}

/// The operations behind `close(a, b)` are permitted.
pub open spec fn close_defined<T: Scalar>(a: T, b: T) -> bool {
    &&& a.sub_req(b)
    &&& magnitude_defined(a.sub_spec(b))
    &&& tolerance_defined::<T>()
}

/// Every pair of corresponding scalars of `a` and `b` is close.
pub open spec fn all_close<T: Scalar>(a: Seq<T>, b: Seq<T>) -> bool {
    &&& a.len() == b.len()
    &&& forall|i: int| 0 <= i < a.len() ==> close(#[trigger] a[i], b[i])
}

/// The operations behind `all_close(a, b)` are permitted.
pub open spec fn all_close_defined<T: Scalar>(a: Seq<T>, b: Seq<T>) -> bool {
    forall|i: int| 0 <= i < a.len() && i < b.len() ==> close_defined(#[trigger] a[i], b[i])
}

/// The scalar for a small integer.
pub fn scalar<T: Scalar>(n: i8) -> (r: T)
    requires
        specified::<T>(),
    ensures
        r == num::<T>(n),
{
    T::from(n)
}

/// The tolerance as a value.
pub fn epsilon<T: Scalar>() -> (r: T)
    requires
        specified::<T>(),
        tolerance_defined::<T>(),
    ensures
        r == tolerance::<T>(),
{
    let hundred: T = T::from(100i8);
    let one: T = T::from(1i8);
    one / (hundred * hundred)
}

/// The absolute value of `a`.
pub fn abs<T: Scalar>(a: T) -> (r: T)
    requires
        specified::<T>(),
        magnitude_defined(a),
    ensures
        r == magnitude(a),
{
    let zero: T = T::from(0i8);
    if a.lt(&zero) {
        a.neg()
    } else {
        a
    }
}

/// Approximate equality of two scalars: their difference is smaller than the
/// tolerance.
pub fn float_almost_eq<T: Scalar>(lhs: &T, rhs: &T) -> (r: bool)
    requires
        specified::<T>(),
        close_defined(*lhs, *rhs),
    ensures
        r == close(*lhs, *rhs),
{
    let diff: T = abs(*lhs - *rhs);
    let eps: T = epsilon();
    diff.lt(&eps)
}

/// Approximate equality of two arrays, scalar by scalar.
pub fn float_array_almost_eq<T: Scalar, const N: usize>(lhs: &[T; N], rhs: &[T; N]) -> (r: bool)
    requires
        specified::<T>(),
        all_close_defined(lhs@, rhs@),
    ensures
        r == all_close(lhs@, rhs@),
{
    let mut i: usize = 0;
    while i < N
        invariant
            specified::<T>(),
            all_close_defined(lhs@, rhs@),
            i <= N,
            forall|k: int| 0 <= k < i ==> close(#[trigger] lhs@[k], rhs@[k]),
        decreases N - i,
    {
        if !float_almost_eq(&lhs[i], &rhs[i]) {
            return false;
        }
        i += 1;
    }
    true
}

/// Approximate equality of two values made of scalars.
pub trait SortaEq: Sized {
    /// The scalar type is specified and the comparison of `self` with `rhs`
    /// performs only permitted operations.
    spec fn comparable(&self, rhs: &Self) -> bool;

    /// What `ehh_maybe` decides.
    spec fn sorta_eq(&self, rhs: &Self) -> bool;

    /// Whether `self` and `rhs` are approximately equal.
    fn ehh_maybe(&self, rhs: &Self) -> (r: bool)
        requires
            self.comparable(rhs),
        ensures
            r == self.sorta_eq(rhs),
    ;
}

} // verus!
