//! Vertices of two, three and four scalars.
//!
//! A `Vert4` is a point when its fourth scalar is one and a free vector
//! otherwise. Its view is the sequence of its four scalars, `x`, `y`, `z`, `w`.

use crate::scalar::{
    all_close, all_close_defined, float_array_almost_eq, num, specified, Scalar, SortaEq,
};
use vstd::prelude::*;
use vstd::std_specs::cmp::PartialEqSpec;
use vstd::std_specs::ops::{
    AddSpec, AddSpecImpl, DivSpec, DivSpecImpl, MulSpec, MulSpecImpl, NegSpec, NegSpecImpl,
    SubSpec, SubSpecImpl,
};

verus! {

/// The sum of four scalars, taken from the left: `((a + b) + c) + d`.
pub open spec fn sum4<T: Scalar>(a: T, b: T, c: T, d: T) -> T {
    a.add_spec(b).add_spec(c).add_spec(d)
}

/// The three additions of `sum4(a, b, c, d)` are permitted.
pub open spec fn sum4_defined<T: Scalar>(a: T, b: T, c: T, d: T) -> bool {
    &&& a.add_req(b)
    &&& a.add_spec(b).add_req(c)
    &&& a.add_spec(b).add_spec(c).add_req(d)
}

/// The sum of the four products `a[i] * b[i]`, taken from the left.
pub open spec fn dot4<T: Scalar>(a: Seq<T>, b: Seq<T>) -> T {
    sum4(a[0].mul_spec(b[0]), a[1].mul_spec(b[1]), a[2].mul_spec(b[2]), a[3].mul_spec(b[3]))
}

/// The four products and the three additions of `dot4(a, b)` are permitted.
pub open spec fn dot4_defined<T: Scalar>(a: Seq<T>, b: Seq<T>) -> bool {
    &&& a[0].mul_req(b[0])
    &&& a[1].mul_req(b[1])
    &&& a[2].mul_req(b[2])
    &&& a[3].mul_req(b[3])
    &&& sum4_defined(
        a[0].mul_spec(b[0]),
        a[1].mul_spec(b[1]),
        a[2].mul_spec(b[2]),
        a[3].mul_spec(b[3]),
    )
}

/// `a[i] * b[j] - a[j] * b[i]`.
pub open spec fn cross_term<T: Scalar>(a: Seq<T>, b: Seq<T>, i: int, j: int) -> T {
    a[i].mul_spec(b[j]).sub_spec(a[j].mul_spec(b[i]))
}

/// The two products and the subtraction of `cross_term(a, b, i, j)` are
/// permitted.
pub open spec fn cross_term_defined<T: Scalar>(a: Seq<T>, b: Seq<T>, i: int, j: int) -> bool {
    &&& a[i].mul_req(b[j])
    &&& a[j].mul_req(b[i])
    &&& a[i].mul_spec(b[j]).sub_req(a[j].mul_spec(b[i]))
}

/// The cross product of the first three scalars of `a` and `b`. The fourth
/// scalar of the result is `a[3] * b[3] - a[3] * b[3]`.
pub open spec fn cross4<T: Scalar>(a: Seq<T>, b: Seq<T>) -> Seq<T> {
    seq![
        cross_term(a, b, 1, 2),
        cross_term(a, b, 2, 0),
        cross_term(a, b, 0, 1),
        cross_term(a, b, 3, 3),
    ]
}

/// The operations of `cross4(a, b)` are permitted.
pub open spec fn cross4_defined<T: Scalar>(a: Seq<T>, b: Seq<T>) -> bool {
    &&& cross_term_defined(a, b, 1, 2)
    &&& cross_term_defined(a, b, 2, 0)
    &&& cross_term_defined(a, b, 0, 1)
    &&& cross_term_defined(a, b, 3, 3)
}

/// Two scalars.
#[derive(Clone, Copy, Debug)]
pub struct Vert2<T>(pub [T; 2]);

impl<T: Scalar> View for Vert2<T> {
    type V = Seq<T>;

    open spec fn view(&self) -> Seq<T> {
        self.0@
    }
}

impl<T: Scalar> Vert2<T> {
    pub fn new(x: T, y: T) -> (v: Self)
        ensures
            v@ =~= seq![x, y],
    {
        Vert2([x, y])
    }

    /// The vertex of zeros.
    pub fn zero() -> (v: Self)
        requires
            specified::<T>(),
        ensures
            v@ =~= seq![num::<T>(0), num::<T>(0)],
    {
        Vert2([T::from(0i8), T::from(0i8)])
    }

    /// The unit vertex along the axis `axis`: 0 for x and 1 for y.
    pub fn unit(axis: usize) -> (v: Self)
        requires
            specified::<T>(),
            axis < 2,
        ensures
            v@ =~= seq![num::<T>(0), num::<T>(0)].update(axis as int, num::<T>(1)),
    {
        let mut a: [T; 2] = [T::from(0i8), T::from(0i8)];
        a[axis] = T::from(1i8);
        Vert2(a)
    }
}

impl<T: Scalar> SortaEq for Vert2<T> {
    open spec fn comparable(&self, rhs: &Self) -> bool {
        specified::<T>() && all_close_defined(self@, rhs@)
    }

    open spec fn sorta_eq(&self, rhs: &Self) -> bool {
        all_close(self@, rhs@)
    }

    fn ehh_maybe(&self, rhs: &Self) -> (r: bool) {
        float_array_almost_eq(&self.0, &rhs.0)
    }
}

/// Three scalars.
#[derive(Clone, Copy, Debug)]
pub struct Vert3<T>(pub [T; 3]);

impl<T: Scalar> View for Vert3<T> {
    type V = Seq<T>;

    open spec fn view(&self) -> Seq<T> {
        self.0@
    }
}

impl<T: Scalar> Vert3<T> {
    pub fn new(x: T, y: T, z: T) -> (v: Self)
        ensures
            v@ =~= seq![x, y, z],
    {
        Vert3([x, y, z])
    }

    /// The vertex of zeros.
    pub fn zero() -> (v: Self)
        requires
            specified::<T>(),
        ensures
            v@ =~= seq![num::<T>(0), num::<T>(0), num::<T>(0)],
    {
        Vert3([T::from(0i8), T::from(0i8), T::from(0i8)])
    }

    /// The unit vertex along the axis `axis`: 0 for x, 1 for y, 2 for z.
    pub fn unit(axis: usize) -> (v: Self)
        requires
            specified::<T>(),
            axis < 3,
        ensures
            v@ =~= seq![num::<T>(0), num::<T>(0), num::<T>(0)].update(axis as int, num::<T>(1)),
    {
        let mut a: [T; 3] = [T::from(0i8), T::from(0i8), T::from(0i8)];
        a[axis] = T::from(1i8);
        Vert3(a)
    }
}

impl<T: Scalar> SortaEq for Vert3<T> {
    open spec fn comparable(&self, rhs: &Self) -> bool {
        specified::<T>() && all_close_defined(self@, rhs@)
    }

    open spec fn sorta_eq(&self, rhs: &Self) -> bool {
        all_close(self@, rhs@)
    }

    fn ehh_maybe(&self, rhs: &Self) -> (r: bool) {
        float_array_almost_eq(&self.0, &rhs.0)
    }
}

/// Four scalars: a point or a free vector in homogeneous coordinates.
#[derive(Clone, Copy, Debug)]
pub struct Vert4<T>(pub [T; 4]);

impl<T: Scalar> View for Vert4<T> {
    type V = Seq<T>;

    open spec fn view(&self) -> Seq<T> {
        self.0@
    }
}

/// The vertex of the four sums `a[i] + b[i]`.
pub open spec fn sum_of<T: Scalar>(a: Vert4<T>, b: Vert4<T>) -> Vert4<T> {
    Vert4(
        [
            a.0[0].add_spec(b.0[0]),
            a.0[1].add_spec(b.0[1]),
            a.0[2].add_spec(b.0[2]),
            a.0[3].add_spec(b.0[3]),
        ],
    )
}

/// The scalar type is specified and the four additions of `sum_of(a, b)` are
/// permitted.
pub open spec fn addable<T: Scalar>(a: Vert4<T>, b: Vert4<T>) -> bool {
    &&& specified::<T>()
    &&& a.0[0].add_req(b.0[0])
    &&& a.0[1].add_req(b.0[1])
    &&& a.0[2].add_req(b.0[2])
    &&& a.0[3].add_req(b.0[3])
}

/// The vertex of the four differences `a[i] - b[i]`.
pub open spec fn difference_of<T: Scalar>(a: Vert4<T>, b: Vert4<T>) -> Vert4<T> {
    Vert4(
        [
            a.0[0].sub_spec(b.0[0]),
            a.0[1].sub_spec(b.0[1]),
            a.0[2].sub_spec(b.0[2]),
            a.0[3].sub_spec(b.0[3]),
        ],
    )
}

/// The scalar type is specified and the four subtractions of
/// `difference_of(a, b)` are permitted.
pub open spec fn subtractable<T: Scalar>(a: Vert4<T>, b: Vert4<T>) -> bool {
    &&& specified::<T>()
    &&& a.0[0].sub_req(b.0[0])
    &&& a.0[1].sub_req(b.0[1])
    &&& a.0[2].sub_req(b.0[2])
    &&& a.0[3].sub_req(b.0[3])
}

/// The vertex of the four negations `-a[i]`.
pub open spec fn negated<T: Scalar>(a: Vert4<T>) -> Vert4<T> {
    Vert4([a.0[0].neg_spec(), a.0[1].neg_spec(), a.0[2].neg_spec(), a.0[3].neg_spec()])
}

/// The scalar type is specified and the four negations of `negated(a)` are
/// permitted.
pub open spec fn negatable<T: Scalar>(a: Vert4<T>) -> bool {
    &&& specified::<T>()
    &&& a.0[0].neg_req()
    &&& a.0[1].neg_req()
    &&& a.0[2].neg_req()
    &&& a.0[3].neg_req()
}

/// The vertex of the four products `a[i] * s`.
pub open spec fn scaled<T: Scalar>(a: Vert4<T>, s: T) -> Vert4<T> {
    Vert4(
        [
            a.0[0].mul_spec(s),
            a.0[1].mul_spec(s),
            a.0[2].mul_spec(s),
            a.0[3].mul_spec(s),
        ],
    )
}

/// The scalar type is specified and the four products of `scaled(a, s)` are
/// permitted.
pub open spec fn scalable<T: Scalar>(a: Vert4<T>, s: T) -> bool {
    &&& specified::<T>()
    &&& a.0[0].mul_req(s)
    &&& a.0[1].mul_req(s)
    &&& a.0[2].mul_req(s)
    &&& a.0[3].mul_req(s)
}

/// The vertex of the four products `a[i] * b[i]`.
pub open spec fn product_of<T: Scalar>(a: Vert4<T>, b: Vert4<T>) -> Vert4<T> {
    Vert4(
        [
            a.0[0].mul_spec(b.0[0]),
            a.0[1].mul_spec(b.0[1]),
            a.0[2].mul_spec(b.0[2]),
            a.0[3].mul_spec(b.0[3]),
        ],
    )
}

/// The scalar type is specified and the four products of `product_of(a, b)`
/// are permitted.
pub open spec fn multipliable<T: Scalar>(a: Vert4<T>, b: Vert4<T>) -> bool {
    &&& specified::<T>()
    &&& a.0[0].mul_req(b.0[0])
    &&& a.0[1].mul_req(b.0[1])
    &&& a.0[2].mul_req(b.0[2])
    &&& a.0[3].mul_req(b.0[3])
}

/// The vertex of the four quotients `a[i] / s`.
pub open spec fn quotient_of<T: Scalar>(a: Vert4<T>, s: T) -> Vert4<T> {
    Vert4(
        [
            a.0[0].div_spec(s),
            a.0[1].div_spec(s),
            a.0[2].div_spec(s),
            a.0[3].div_spec(s),
        ],
    )
}

/// The scalar type is specified and the four divisions of `quotient_of(a, s)`
/// are permitted.
pub open spec fn divisible<T: Scalar>(a: Vert4<T>, s: T) -> bool {
    &&& specified::<T>()
    &&& a.0[0].div_req(s)
    &&& a.0[1].div_req(s)
    &&& a.0[2].div_req(s)
    &&& a.0[3].div_req(s)
}

impl<T: Scalar> Vert4<T> {
    pub fn new(x: T, y: T, z: T, w: T) -> (v: Self)
        ensures
            v@ =~= seq![x, y, z, w],
    {
        Vert4([x, y, z, w])
    }

    pub fn x(&self) -> (r: T)
        ensures
            r == self@[0],
    {
        self.0[0]
    }

    pub fn y(&self) -> (r: T)
        ensures
            r == self@[1],
    {
        self.0[1]
    }

    pub fn z(&self) -> (r: T)
        ensures
            r == self@[2],
    {
        self.0[2]
    }

    pub fn w(&self) -> (r: T)
        ensures
            r == self@[3],
    {
        self.0[3]
    }

    /// The scalar at `index`.
    pub fn get(&self, index: usize) -> (r: T)
        requires
            index < 4,
        ensures
            r == self@[index as int],
    {
        self.0[index]
    }

    /// Replaces the scalar at `index`.
    pub fn set(&mut self, index: usize, value: T)
        requires
            index < 4,
        ensures
            final(self)@ =~= old(self)@.update(index as int, value),
    {
        self.0[index] = value;
    }

    /// The point `(x, y, z)`: its fourth scalar is one.
    pub fn point(x: T, y: T, z: T) -> (v: Self)
        requires
            specified::<T>(),
        ensures
            v@ =~= seq![x, y, z, num::<T>(1)],
    {
        Vert4([x, y, z, T::from(1i8)])
    }

    /// The free vector `(x, y, z)`: its fourth scalar is zero.
    pub fn vector(x: T, y: T, z: T) -> (v: Self)
        requires
            specified::<T>(),
        ensures
            v@ =~= seq![x, y, z, num::<T>(0)],
    {
        Vert4([x, y, z, T::from(0i8)])
    }

    /// The vertex of four zeros.
    pub fn zero() -> (v: Self)
        requires
            specified::<T>(),
        ensures
            v@ =~= seq![num::<T>(0), num::<T>(0), num::<T>(0), num::<T>(0)],
    {
        Vert4([T::from(0i8), T::from(0i8), T::from(0i8), T::from(0i8)])
    }

    /// The unit vertex along the axis `axis`: 0 for x, 1 for y, 2 for z and
    /// 3 for w.
    pub fn unit(axis: usize) -> (v: Self)
        requires
            specified::<T>(),
            axis < 4,
        ensures
            v@ =~= seq![num::<T>(0), num::<T>(0), num::<T>(0), num::<T>(0)].update(
                axis as int,
                num::<T>(1),
            ),
    {
        let mut a: [T; 4] = [T::from(0i8), T::from(0i8), T::from(0i8), T::from(0i8)];
        a[axis] = T::from(1i8);
        Vert4(a)
    }

    /// Whether the fourth scalar equals one.
    pub open spec fn is_point_spec(&self) -> bool {
        self@[3].eq_spec(&num::<T>(1))
    }

    #[verifier::when_used_as_spec(is_point_spec)]
    pub fn is_point(&self) -> (r: bool)
        requires
            specified::<T>(),
        ensures
            r == self.is_point_spec(),
    {
        let one: T = T::from(1i8);
        self.0[3] == one
    }

    pub fn is_vector(&self) -> (r: bool)
        requires
            specified::<T>(),
        ensures
            r == !self.is_point_spec(),
    {
        !self.is_point()
    }

    /// The vertex made of the first four scalars of `slice`.
    pub fn from_slice(slice: &[T]) -> (v: Self)
        requires
            slice@.len() >= 4,
        ensures
            v@ =~= slice@.subrange(0, 4),
    {
        Vert4([slice[0], slice[1], slice[2], slice[3]])
    }

    pub fn from_array(array: [T; 4]) -> (v: Self)
        ensures
            v@ == array@,
    {
        Vert4(array)
    }

    /// The sum of the four scalars, taken from the left.
    pub fn reduce_sum(self) -> (r: T)
        requires
            specified::<T>(),
            sum4_defined(self@[0], self@[1], self@[2], self@[3]),
        ensures
            r == sum4(self@[0], self@[1], self@[2], self@[3]),
    {
        self.0[0] + self.0[1] + self.0[2] + self.0[3]
    }

    /// The dot product over all four scalars.
    pub fn dot(self, rhs: Vert4<T>) -> (r: T)
        requires
            specified::<T>(),
            dot4_defined(self@, rhs@),
        ensures
            r == dot4(self@, rhs@),
    {
        self.0[0] * rhs.0[0] + self.0[1] * rhs.0[1] + self.0[2] * rhs.0[2] + self.0[3] * rhs.0[3]
    }

    /// The dot product of the vertex with itself, which is the square of its
    /// length.
    pub fn mag_squared(&self) -> (r: T)
        requires
            specified::<T>(),
            dot4_defined(self@, self@),
        ensures
            r == dot4(self@, self@),
    {
        self.dot(*self)
    }

    /// The cross product of the first three scalars.
    pub fn cross(self, rhs: Vert4<T>) -> (v: Self)
        requires
            specified::<T>(),
            cross4_defined(self@, rhs@),
        ensures
            v@ =~= cross4(self@, rhs@),
    {
        let a = self.0;
        let b = rhs.0;
        Vert4(
            [
                a[1] * b[2] - a[2] * b[1],
                a[2] * b[0] - a[0] * b[2],
                a[0] * b[1] - a[1] * b[0],
                a[3] * b[3] - a[3] * b[3],
            ],
        )
    }

    /// The vertex divided by `mag`. With its own length for `mag`, the result
    /// is the unit vertex of the same direction.
    pub fn norm_by(&self, mag: T) -> (v: Self)
        requires
            divisible(*self, mag),
        ensures
            v == quotient_of(*self, mag),
    {
        *self / mag
    }

    /// Divides the vertex by `mag` in place.
    pub fn norm_assign_by(&mut self, mag: T)
        requires
            divisible(*old(self), mag),
        ensures
            *final(self) == quotient_of(*old(self), mag),
    {
        *self = *self / mag;
    }
}

impl<T: Scalar> SortaEq for Vert4<T> {
    open spec fn comparable(&self, rhs: &Self) -> bool {
        specified::<T>() && all_close_defined(self@, rhs@)
    }

    open spec fn sorta_eq(&self, rhs: &Self) -> bool {
        all_close(self@, rhs@)
    }

    fn ehh_maybe(&self, rhs: &Self) -> (r: bool) {
        float_array_almost_eq(&self.0, &rhs.0)
    }
}

impl<T: Scalar> AddSpecImpl<Vert4<T>> for Vert4<T> {
    open spec fn obeys_add_spec() -> bool {
        true
    }

    open spec fn add_req(self, rhs: Vert4<T>) -> bool {
        addable(self, rhs)
    }

    open spec fn add_spec(self, rhs: Vert4<T>) -> Vert4<T> {
        sum_of(self, rhs)
    }
}

/// Scalar by scalar.
impl<T: Scalar> core::ops::Add<Vert4<T>> for Vert4<T> {
    type Output = Vert4<T>;

    fn add(self, rhs: Vert4<T>) -> (out: Vert4<T>) {
        Vert4(
            [
                self.0[0] + rhs.0[0],
                self.0[1] + rhs.0[1],
                self.0[2] + rhs.0[2],
                self.0[3] + rhs.0[3],
            ],
        )
    }
}

impl<T: Scalar> SubSpecImpl<Vert4<T>> for Vert4<T> {
    open spec fn obeys_sub_spec() -> bool {
        true
    }

    open spec fn sub_req(self, rhs: Vert4<T>) -> bool {
        subtractable(self, rhs)
    }

    open spec fn sub_spec(self, rhs: Vert4<T>) -> Vert4<T> {
        difference_of(self, rhs)
    }
}

/// Scalar by scalar.
impl<T: Scalar> core::ops::Sub<Vert4<T>> for Vert4<T> {
    type Output = Vert4<T>;

    fn sub(self, rhs: Vert4<T>) -> (out: Vert4<T>) {
        Vert4(
            [
                self.0[0] - rhs.0[0],
                self.0[1] - rhs.0[1],
                self.0[2] - rhs.0[2],
                self.0[3] - rhs.0[3],
            ],
        )
    }
}

impl<T: Scalar> NegSpecImpl for Vert4<T> {
    open spec fn obeys_neg_spec() -> bool {
        true
    }

    open spec fn neg_req(self) -> bool {
        negatable(self)
    }

    open spec fn neg_spec(self) -> Vert4<T> {
        negated(self)
    }
}

/// Scalar by scalar.
impl<T: Scalar> core::ops::Neg for Vert4<T> {
    type Output = Vert4<T>;

    fn neg(self) -> (out: Vert4<T>) {
        Vert4([self.0[0].neg(), self.0[1].neg(), self.0[2].neg(), self.0[3].neg()])
    }
}

impl<T: Scalar> MulSpecImpl<T> for Vert4<T> {
    open spec fn obeys_mul_spec() -> bool {
        true
    }

    open spec fn mul_req(self, rhs: T) -> bool {
        scalable(self, rhs)
    }

    open spec fn mul_spec(self, rhs: T) -> Vert4<T> {
        scaled(self, rhs)
    }
}

/// Every scalar times `rhs`.
impl<T: Scalar> core::ops::Mul<T> for Vert4<T> {
    type Output = Vert4<T>;

    fn mul(self, rhs: T) -> (out: Vert4<T>) {
        Vert4([self.0[0] * rhs, self.0[1] * rhs, self.0[2] * rhs, self.0[3] * rhs])
    }
}

impl<T: Scalar> MulSpecImpl<Vert4<T>> for Vert4<T> {
    open spec fn obeys_mul_spec() -> bool {
        true
    }

    open spec fn mul_req(self, rhs: Vert4<T>) -> bool {
        multipliable(self, rhs)
    }

    open spec fn mul_spec(self, rhs: Vert4<T>) -> Vert4<T> {
        product_of(self, rhs)
    }
}

/// Scalar by scalar.
impl<T: Scalar> core::ops::Mul<Vert4<T>> for Vert4<T> {
    type Output = Vert4<T>;

    fn mul(self, rhs: Vert4<T>) -> (out: Vert4<T>) {
        Vert4(
            [
                self.0[0] * rhs.0[0],
                self.0[1] * rhs.0[1],
                self.0[2] * rhs.0[2],
                self.0[3] * rhs.0[3],
            ],
        )
    }
}

impl<T: Scalar> DivSpecImpl<T> for Vert4<T> {
    open spec fn obeys_div_spec() -> bool {
        true
    }

    open spec fn div_req(self, rhs: T) -> bool {
        divisible(self, rhs)
    }

    open spec fn div_spec(self, rhs: T) -> Vert4<T> {
        quotient_of(self, rhs)
    }
}

/// Every scalar divided by `rhs`.
impl<T: Scalar> core::ops::Div<T> for Vert4<T> {
    type Output = Vert4<T>;

    fn div(self, rhs: T) -> (out: Vert4<T>) {
        Vert4([self.0[0] / rhs, self.0[1] / rhs, self.0[2] / rhs, self.0[3] / rhs])
    }
}

} // verus!
