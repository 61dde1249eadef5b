//! Points and free vectors as types of their own.
//!
//! Both hold a vertex of four scalars. The fourth scalar of a point is one
//! and that of a free vector is zero, which the operators keep in step: a
//! point minus a point is a vector, a point plus or minus a vector is a point.

use crate::scalar::{all_close, all_close_defined, num, specified, Scalar, SortaEq};
use crate::vertex::{
    addable, difference_of, divisible, dot4, dot4_defined, quotient_of, subtractable, sum_of,
    Vert4,
};
use vstd::prelude::*;

verus! {

/// The two roles of a vertex of four scalars.
#[derive(Clone, Copy, Debug, PartialEq, Eq, Structural)]
pub enum TupleType {
    Point,
    Vector,
}

/// Four scalars with no role attached.
pub type Tuple<T> = Vert4<T>;

/// What a vertex of four scalars stands for, by its fourth scalar: a point
/// where it equals one, a free vector otherwise.
pub fn tuple_type<T: Scalar>(tuple: &Tuple<T>) -> (kind: TupleType)
    requires
        specified::<T>(),
    ensures
        kind == (if tuple.is_point_spec() {
            TupleType::Point
        } else {
            TupleType::Vector
        }),
{
    if tuple.is_point() {
        TupleType::Point
    } else {
        TupleType::Vector
    }
}

/// A value with three coordinates that is either a point or a free vector.
pub trait Pointlike<T: Scalar>: Sized {
    /// The four scalars of the value.
    spec fn coordinates(&self) -> Seq<T>;

    /// Whether values of this type are free vectors.
    spec fn vector_kind() -> bool;

    /// The value at `(x, y, z)`. Its fourth scalar is zero for a free vector
    /// and one for a point.
    fn new(x: T, y: T, z: T) -> (p: Self)
        requires
            specified::<T>(),
        ensures
            p.coordinates() =~= seq![
                x,
                y,
                z,
                if Self::vector_kind() {
                    num::<T>(0)
                } else {
                    num::<T>(1)
                },
            ],
    ;

    fn is_vector(&self) -> (r: bool)
        ensures
            r == Self::vector_kind(),
    ;

    fn is_point(&self) -> (r: bool)
        ensures
            r == !Self::vector_kind(),
    ;
}

/// A position in space.
#[derive(Clone, Copy, Debug)]
pub struct Point<T>(pub Vert4<T>);

/// A displacement in space.
#[derive(Clone, Copy, Debug)]
pub struct Vector<T>(pub Tuple<T>);

impl<T: Scalar> View for Point<T> {
    type V = Seq<T>;

    open spec fn view(&self) -> Seq<T> {
        self.0@
    }
}

impl<T: Scalar> View for Vector<T> {
    type V = Seq<T>;

    open spec fn view(&self) -> Seq<T> {
        self.0@
    }
}

impl<T: Scalar> Pointlike<T> for Point<T> {
    open spec fn coordinates(&self) -> Seq<T> {
        self@
    }

    open spec fn vector_kind() -> bool {
        false
    }

    fn new(x: T, y: T, z: T) -> (p: Self) {
        Point(Vert4::new(x, y, z, T::from(1i8)))
    }

    fn is_vector(&self) -> (r: bool) {
        false
    }

    fn is_point(&self) -> (r: bool) {
        !self.is_vector()
    }
}

impl<T: Scalar> Pointlike<T> for Vector<T> {
    open spec fn coordinates(&self) -> Seq<T> {
        self@
    }

    open spec fn vector_kind() -> bool {
        true
    }

    fn new(x: T, y: T, z: T) -> (p: Self) {
        Vector(Vert4::new(x, y, z, T::from(0i8)))
    }

    fn is_vector(&self) -> (r: bool) {
        true
    }

    fn is_point(&self) -> (r: bool) {
        !self.is_vector()
    }
}

impl<T: Scalar> Point<T> {
    pub fn x(&self) -> (r: T)
        ensures
            r == self@[0],
    {
        self.0.x()
    }

    pub fn y(&self) -> (r: T)
        ensures
            r == self@[1],
    {
        self.0.y()
    }

    /// Whether the point is approximately equal to the vertex `other`.
    pub fn eq_vertex(&self, other: &Vert4<T>) -> (r: bool)
        requires
            specified::<T>(),
            all_close_defined(self@, other@),
        ensures
            r == all_close(self@, other@),
    {
        self.0.ehh_maybe(other)
    }
}

impl<T: Scalar> SortaEq for Point<T> {
    open spec fn comparable(&self, rhs: &Self) -> bool {
        specified::<T>() && all_close_defined(self@, rhs@)
    }

    open spec fn sorta_eq(&self, rhs: &Self) -> bool {
        all_close(self@, rhs@)
    }

    fn ehh_maybe(&self, rhs: &Self) -> (r: bool) {
        self.0.ehh_maybe(&rhs.0)
    }
}

impl<T: Scalar> vstd::std_specs::ops::AddSpecImpl<Vector<T>> for Point<T> {
    open spec fn obeys_add_spec() -> bool {
        true
    }

    open spec fn add_req(self, rhs: Vector<T>) -> bool {
        addable(self.0, rhs.0)
    }

    open spec fn add_spec(self, rhs: Vector<T>) -> Point<T> {
        Point(sum_of(self.0, rhs.0))
    }
}

/// A point moved by a vector is a point.
impl<T: Scalar> core::ops::Add<Vector<T>> for Point<T> {
    type Output = Point<T>;

    fn add(self, rhs: Vector<T>) -> (out: Point<T>) {
        Point(self.0 + rhs.0)
    }
}

impl<T: Scalar> vstd::std_specs::ops::SubSpecImpl<Point<T>> for Point<T> {
    open spec fn obeys_sub_spec() -> bool {
        true
    }

    open spec fn sub_req(self, rhs: Point<T>) -> bool {
        subtractable(self.0, rhs.0)
    }

    open spec fn sub_spec(self, rhs: Point<T>) -> Vector<T> {
        Vector(difference_of(self.0, rhs.0))
    }
}

/// The difference of two points is a vector.
impl<T: Scalar> core::ops::Sub<Point<T>> for Point<T> {
    type Output = Vector<T>;

    fn sub(self, rhs: Point<T>) -> (out: Vector<T>) {
        Vector(self.0 - rhs.0)
    }
}

impl<T: Scalar> vstd::std_specs::ops::SubSpecImpl<Vector<T>> for Point<T> {
    open spec fn obeys_sub_spec() -> bool {
        true
    }

    open spec fn sub_req(self, rhs: Vector<T>) -> bool {
        subtractable(self.0, rhs.0)
    }

    open spec fn sub_spec(self, rhs: Vector<T>) -> Point<T> {
        Point(difference_of(self.0, rhs.0))
    }
}

/// A point moved back by a vector is a point.
impl<T: Scalar> core::ops::Sub<Vector<T>> for Point<T> {
    type Output = Point<T>;

    fn sub(self, rhs: Vector<T>) -> (out: Point<T>) {
        Point(self.0 - rhs.0)
    }
}

impl<T: Scalar> Vector<T> {
    /// The vector of no displacement.
    pub fn zero() -> (v: Self)
        requires
            specified::<T>(),
        ensures
            v@ =~= seq![num::<T>(0), num::<T>(0), num::<T>(0), num::<T>(0)],
    {
        Vector(Vert4::zero())
    }

    /// The unit vector along the axis `axis`: 0 for x, 1 for y, 2 for z.
    pub fn unit(axis: usize) -> (v: Self)
        requires
            specified::<T>(),
            axis < 3,
        ensures
            v@ =~= seq![num::<T>(0), num::<T>(0), num::<T>(0), num::<T>(0)].update(
                axis as int,
                num::<T>(1),
            ),
    {
        Vector(Vert4::unit(axis))
    }

    /// The square of the length: the dot product of the vector with itself.
    pub fn mag_squared(&self) -> (r: T)
        requires
            specified::<T>(),
            dot4_defined(self@, self@),
        ensures
            r == dot4(self@, self@),
    {
        self.0.mag_squared()
    }

    /// The vector divided by `mag`. With its own length for `mag`, the result
    /// is the unit vector of the same direction.
    pub fn norm_by(&self, mag: T) -> (v: Self)
        requires
            divisible(self.0, mag),
        ensures
            v == Vector(quotient_of(self.0, mag)),
    {
        Vector(self.0.norm_by(mag))
    }

    /// Divides the vector by `mag` in place.
    pub fn norm_assign_by(&mut self, mag: T)
        requires
            divisible(old(self).0, mag),
        ensures
            *final(self) == Vector(quotient_of(old(self).0, mag)),
    {
        self.0.norm_assign_by(mag);
    }

    /// Whether the vector is approximately equal to the tuple `other`.
    pub fn eq_tuple(&self, other: &Tuple<T>) -> (r: bool)
        requires
            specified::<T>(),
            all_close_defined(self@, other@),
        ensures
            r == all_close(self@, other@),
    {
        self.0.ehh_maybe(other)
    }
}

impl<T: Scalar> SortaEq for Vector<T> {
    open spec fn comparable(&self, rhs: &Self) -> bool {
        specified::<T>() && all_close_defined(self@, rhs@)
    }

    open spec fn sorta_eq(&self, rhs: &Self) -> bool {
        all_close(self@, rhs@)
    }

    fn ehh_maybe(&self, rhs: &Self) -> (r: bool) {
        self.0.ehh_maybe(&rhs.0)
    }
}

impl<T: Scalar> vstd::std_specs::ops::AddSpecImpl<Vector<T>> for Vector<T> {
    open spec fn obeys_add_spec() -> bool {
        true
    }

    open spec fn add_req(self, rhs: Vector<T>) -> bool {
        addable(self.0, rhs.0)
    }

    open spec fn add_spec(self, rhs: Vector<T>) -> Vector<T> {
        Vector(sum_of(self.0, rhs.0))
    }
}

impl<T: Scalar> core::ops::Add<Vector<T>> for Vector<T> {
    type Output = Vector<T>;

    fn add(self, rhs: Vector<T>) -> (out: Vector<T>) {
        Vector(self.0 + rhs.0)
    }
}

impl<T: Scalar> vstd::std_specs::ops::SubSpecImpl<Vector<T>> for Vector<T> {
    open spec fn obeys_sub_spec() -> bool {
        true
    }

    open spec fn sub_req(self, rhs: Vector<T>) -> bool {
        subtractable(self.0, rhs.0)
    }

    open spec fn sub_spec(self, rhs: Vector<T>) -> Vector<T> {
        Vector(difference_of(self.0, rhs.0))
    }
}

impl<T: Scalar> core::ops::Sub<Vector<T>> for Vector<T> {
    type Output = Vector<T>;

    fn sub(self, rhs: Vector<T>) -> (out: Vector<T>) {
        Vector(self.0 - rhs.0)
    }
}

impl<T: Scalar> vstd::std_specs::ops::DivSpecImpl<T> for Vector<T> {
    open spec fn obeys_div_spec() -> bool {
        true
    }

    open spec fn div_req(self, rhs: T) -> bool {
        divisible(self.0, rhs)
    }

    open spec fn div_spec(self, rhs: T) -> Vector<T> {
        Vector(quotient_of(self.0, rhs))
    }
}

impl<T: Scalar> core::ops::Div<T> for Vector<T> {
    type Output = Vector<T>;

    fn div(self, rhs: T) -> (out: Vector<T>) {
        Vector(self.0 / rhs)
    }
}

} // verus!
