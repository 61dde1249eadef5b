//! Quaternions: a scalar part followed by the three scalars of a vector part.

use crate::scalar::{specified, Scalar};
use crate::vertex::{cross_term, cross_term_defined};
use vstd::prelude::*;
use vstd::std_specs::ops::{AddSpec, MulSpec, SubSpec};

verus! {

/// A quaternion. Its view is the sequence of its four parts: the scalar part,
/// then x, y and z.
#[derive(Clone, Copy, Debug)]
pub struct Quaternion<T>(pub [T; 4]);

impl<T> View for Quaternion<T> {
    type V = Seq<T>;

    open spec fn view(&self) -> Seq<T> {
        self.0@
    }
}

pub fn scalar_of<T: Copy>(q: &Quaternion<T>) -> (r: T)
    ensures
        r == q@[0],
{
    q.0[0]
}

pub fn x_of<T: Copy>(q: &Quaternion<T>) -> (r: T)
    ensures
        r == q@[1],
{
    q.0[1]
}

pub fn y_of<T: Copy>(q: &Quaternion<T>) -> (r: T)
    ensures
        r == q@[2],
{
    q.0[2]
}

pub fn z_of<T: Copy>(q: &Quaternion<T>) -> (r: T)
    ensures
        r == q@[3],
{
    q.0[3]
}

pub fn with_scalar_of<T: Copy>(q: Quaternion<T>, scalar: T) -> (r: Quaternion<T>)
    ensures
        r@ =~= q@.update(0, scalar),
{
    Quaternion([scalar, q.0[1], q.0[2], q.0[3]])
}

pub fn with_x_of<T: Copy>(q: Quaternion<T>, x: T) -> (r: Quaternion<T>)
    ensures
        r@ =~= q@.update(1, x),
{
    Quaternion([q.0[0], x, q.0[2], q.0[3]])
}

pub fn with_y_of<T: Copy>(q: Quaternion<T>, y: T) -> (r: Quaternion<T>)
    ensures
        r@ =~= q@.update(2, y),
{
    Quaternion([q.0[0], q.0[1], y, q.0[3]])
}

pub fn with_z_of<T: Copy>(q: Quaternion<T>, z: T) -> (r: Quaternion<T>)
    ensures
        r@ =~= q@.update(3, z),
{
    Quaternion([q.0[0], q.0[1], q.0[2], z])
}

pub fn from_array<T: Copy>(array: [T; 4]) -> (r: Quaternion<T>)
    ensures
        r@ == array@,
{
    Quaternion(array)
}

pub fn to_array<T: Copy>(q: Quaternion<T>) -> (r: [T; 4])
    ensures
        r@ == q@,
{
    q.0
}

/// The quaternion whose four parts are one default value of `T`.
pub fn default<T: Copy + Default>() -> (r: Quaternion<T>)
    ensures
        call_ensures(T::default, (), r@[0]),
        r@ =~= seq![r@[0], r@[0], r@[0], r@[0]],
{
    let d: T = T::default();
    Quaternion([d, d, d, d])
}

/// The sum of the three products `a[i] * b[i]` for `i` from 1 to 3, taken
/// from the left: the dot product of the vector parts.
pub open spec fn vector_dot<T: Scalar>(a: Seq<T>, b: Seq<T>) -> T {
    a[1].mul_spec(b[1]).add_spec(a[2].mul_spec(b[2])).add_spec(a[3].mul_spec(b[3]))
}

/// The operations of `vector_dot(a, b)` are permitted.
pub open spec fn vector_dot_defined<T: Scalar>(a: Seq<T>, b: Seq<T>) -> bool {
    &&& a[1].mul_req(b[1])
    &&& a[2].mul_req(b[2])
    &&& a[3].mul_req(b[3])
    &&& a[1].mul_spec(b[1]).add_req(a[2].mul_spec(b[2]))
    &&& a[1].mul_spec(b[1]).add_spec(a[2].mul_spec(b[2])).add_req(a[3].mul_spec(b[3]))
}

/// The part after `i` among the parts 1, 2 and 3 of a vector part, in a
/// circle.
pub open spec fn next_part(i: int) -> int {
    if i == 3 {
        1
    } else {
        i + 1
    }
}

/// Part `i` (1, 2 or 3) of the cross product of the vector parts of `a` and
/// `b`.
pub open spec fn vector_cross<T: Scalar>(a: Seq<T>, b: Seq<T>, i: int) -> T {
    cross_term(a, b, next_part(i), next_part(next_part(i)))
}

/// Part `i` (1, 2 or 3) of the vector part of the product of `a` and `b`:
/// `b[i] * a[0] + a[i] * b[0]` plus the cross product of the vector parts.
pub open spec fn product_vector_part<T: Scalar>(a: Seq<T>, b: Seq<T>, i: int) -> T {
    b[i].mul_spec(a[0]).add_spec(a[i].mul_spec(b[0])).add_spec(vector_cross(a, b, i))
}

/// The operations of `product_vector_part(a, b, i)` are permitted.
pub open spec fn product_vector_part_defined<T: Scalar>(a: Seq<T>, b: Seq<T>, i: int) -> bool {
    &&& b[i].mul_req(a[0])
    &&& a[i].mul_req(b[0])
    &&& b[i].mul_spec(a[0]).add_req(a[i].mul_spec(b[0]))
    &&& cross_term_defined(a, b, next_part(i), next_part(next_part(i)))
    &&& b[i].mul_spec(a[0]).add_spec(a[i].mul_spec(b[0])).add_req(vector_cross(a, b, i))
}

/// The product of the quaternions `a` and `b`: the scalar part is
/// `a[0] * b[0]` minus the dot product of the vector parts.
pub open spec fn hamilton<T: Scalar>(a: Seq<T>, b: Seq<T>) -> Seq<T> {
    seq![
        a[0].mul_spec(b[0]).sub_spec(vector_dot(a, b)),
        product_vector_part(a, b, 1),
        product_vector_part(a, b, 2),
        product_vector_part(a, b, 3),
    ]
}

/// The operations of `hamilton(a, b)` are permitted.
pub open spec fn hamilton_defined<T: Scalar>(a: Seq<T>, b: Seq<T>) -> bool {
    &&& a[0].mul_req(b[0])
    &&& vector_dot_defined(a, b)
    &&& a[0].mul_spec(b[0]).sub_req(vector_dot(a, b))
    &&& product_vector_part_defined(a, b, 1)
    &&& product_vector_part_defined(a, b, 2)
    &&& product_vector_part_defined(a, b, 3)
}

/// Each part of `a` may be added to `s`.
pub open spec fn parts_add_scalar_defined<T: Scalar>(a: Seq<T>, s: T) -> bool {
    &&& a[0].add_req(s)
    &&& a[1].add_req(s)
    &&& a[2].add_req(s)
    &&& a[3].add_req(s)
}

/// Each part of `a` may be added to its part of `b`.
pub open spec fn parts_add_defined<T: Scalar>(a: Seq<T>, b: Seq<T>) -> bool {
    &&& a[0].add_req(b[0])
    &&& a[1].add_req(b[1])
    &&& a[2].add_req(b[2])
    &&& a[3].add_req(b[3])
}

/// `s` may be subtracted from each part of `a`.
pub open spec fn parts_sub_scalar_defined<T: Scalar>(a: Seq<T>, s: T) -> bool {
    &&& a[0].sub_req(s)
    &&& a[1].sub_req(s)
    &&& a[2].sub_req(s)
    &&& a[3].sub_req(s)
}

/// Each part of `b` may be subtracted from its part of `a`.
pub open spec fn parts_sub_defined<T: Scalar>(a: Seq<T>, b: Seq<T>) -> bool {
    &&& a[0].sub_req(b[0])
    &&& a[1].sub_req(b[1])
    &&& a[2].sub_req(b[2])
    &&& a[3].sub_req(b[3])
}

/// Each part of `a` may be multiplied by `s`.
pub open spec fn parts_scale_defined<T: Scalar>(a: Seq<T>, s: T) -> bool {
    &&& a[0].mul_req(s)
    &&& a[1].mul_req(s)
    &&& a[2].mul_req(s)
    &&& a[3].mul_req(s)
}

impl<T: Scalar> Quaternion<T> {
    /// Every part plus `rhs`.
    pub fn add_scalar(self, rhs: T) -> (r: Quaternion<T>)
        requires
            specified::<T>(),
            parts_add_scalar_defined(self@, rhs),
        ensures
            r@ =~= Seq::new(4, |i: int| self@[i].add_spec(rhs)),
    {
        let a = self.0;
        Quaternion([a[0] + rhs, a[1] + rhs, a[2] + rhs, a[3] + rhs])
    }

    /// Part by part.
    pub fn add(self, rhs: Quaternion<T>) -> (r: Quaternion<T>)
        requires
            specified::<T>(),
            parts_add_defined(self@, rhs@),
        ensures
            r@ =~= Seq::new(4, |i: int| self@[i].add_spec(rhs@[i])),
    {
        let a = self.0;
        let b = rhs.0;
        Quaternion([a[0] + b[0], a[1] + b[1], a[2] + b[2], a[3] + b[3]])
    }

    /// Every part minus `rhs`.
    pub fn sub_scalar(self, rhs: T) -> (r: Quaternion<T>)
        requires
            specified::<T>(),
            parts_sub_scalar_defined(self@, rhs),
        ensures
            r@ =~= Seq::new(4, |i: int| self@[i].sub_spec(rhs)),
    {
        let a = self.0;
        Quaternion([a[0] - rhs, a[1] - rhs, a[2] - rhs, a[3] - rhs])
    }

    /// Part by part.
    pub fn sub(self, rhs: Quaternion<T>) -> (r: Quaternion<T>)
        requires
            specified::<T>(),
            parts_sub_defined(self@, rhs@),
        ensures
            r@ =~= Seq::new(4, |i: int| self@[i].sub_spec(rhs@[i])),
    {
        let a = self.0;
        let b = rhs.0;
        Quaternion([a[0] - b[0], a[1] - b[1], a[2] - b[2], a[3] - b[3]])
    }

    /// Every part times `rhs`.
    pub fn scale(self, rhs: T) -> (r: Quaternion<T>)
        requires
            specified::<T>(),
            parts_scale_defined(self@, rhs),
        ensures
            r@ =~= Seq::new(4, |i: int| self@[i].mul_spec(rhs)),
    {
        let a = self.0;
        Quaternion([a[0] * rhs, a[1] * rhs, a[2] * rhs, a[3] * rhs])
    }

    /// The product of two quaternions.
    pub fn mul(self, rhs: Quaternion<T>) -> (r: Quaternion<T>)
        requires
            specified::<T>(),
            hamilton_defined(self@, rhs@),
        ensures
            r@ =~= hamilton(self@, rhs@),
    {
        let a = self.0;
        let b = rhs.0;
        let dot = a[1] * b[1] + a[2] * b[2] + a[3] * b[3];
        let scalar = (a[0] * b[0]) - dot;
        let x = (b[1] * a[0]) + (a[1] * b[0]) + (a[2] * b[3] - a[3] * b[2]);
        let y = (b[2] * a[0]) + (a[2] * b[0]) + (a[3] * b[1] - a[1] * b[3]);
        let z = (b[3] * a[0]) + (a[3] * b[0]) + (a[1] * b[2] - a[2] * b[1]);
        Quaternion([scalar, x, y, z])
    }
}

} // verus!
