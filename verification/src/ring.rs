//! Consequences of the laws of a field that the proofs about determinants
//! use, each as a lemma over given scalars.

use crate::scalar::{
    field_laws, multiplication_commutes, neutral_elements, num, ring_laws, Scalar,
};
use crate::vertex::sum4;
use vstd::prelude::*;
use vstd::std_specs::cmp::PartialEqSpec;
use vstd::std_specs::ops::{AddSpec, DivSpec, MulSpec, NegSpec, SubSpec};

verus! {

pub proof fn lemma_add_commutes<T: Scalar>(a: T, b: T)
    requires
        ring_laws::<T>(),
    ensures
        a.add_spec(b) == b.add_spec(a),
{
    reveal(ring_laws);
}

pub proof fn lemma_add_associates<T: Scalar>(a: T, b: T, c: T)
    requires
        ring_laws::<T>(),
    ensures
        a.add_spec(b).add_spec(c) == a.add_spec(b.add_spec(c)),
{
    reveal(ring_laws);
}

pub proof fn lemma_mul_associates<T: Scalar>(a: T, b: T, c: T)
    requires
        ring_laws::<T>(),
    ensures
        a.mul_spec(b).mul_spec(c) == a.mul_spec(b.mul_spec(c)),
{
    reveal(ring_laws);
}

pub proof fn lemma_distributes_left<T: Scalar>(a: T, b: T, c: T)
    requires
        ring_laws::<T>(),
    ensures
        a.mul_spec(b.add_spec(c)) == a.mul_spec(b).add_spec(a.mul_spec(c)),
{
    reveal(ring_laws);
}

pub proof fn lemma_distributes_right<T: Scalar>(a: T, b: T, c: T)
    requires
        ring_laws::<T>(),
    ensures
        a.add_spec(b).mul_spec(c) == a.mul_spec(c).add_spec(b.mul_spec(c)),
{
    reveal(ring_laws);
}

/// `(a + b) + (c + d) == (a + c) + (b + d)`.
pub proof fn lemma_shuffle<T: Scalar>(a: T, b: T, c: T, d: T)
    requires
        ring_laws::<T>(),
    ensures
        a.add_spec(b).add_spec(c.add_spec(d)) == a.add_spec(c).add_spec(b.add_spec(d)),
{
    lemma_add_associates(a, b, c.add_spec(d));
    lemma_add_associates(b, c, d);
    lemma_add_commutes(b, c);
    lemma_add_associates(c, b, d);
    lemma_add_associates(a, c, b.add_spec(d));
}

/// The sum of two sums of four is the sum of the four sums of two.
pub proof fn lemma_sum4_pairwise<T: Scalar>(a: T, b: T, c: T, d: T, e: T, f: T, g: T, h: T)
    requires
        ring_laws::<T>(),
    ensures
        sum4(a, b, c, d).add_spec(sum4(e, f, g, h)) == sum4(
            a.add_spec(e),
            b.add_spec(f),
            c.add_spec(g),
            d.add_spec(h),
        ),
{
    lemma_shuffle(a.add_spec(b).add_spec(c), d, e.add_spec(f).add_spec(g), h);
    lemma_shuffle(a.add_spec(b), c, e.add_spec(f), g);
    lemma_shuffle(a, b, e, f);
}

/// `(p + q + r + s) * v == p * v + q * v + r * v + s * v`.
pub proof fn lemma_sum4_times<T: Scalar>(p: T, q: T, r: T, s: T, v: T)
    requires
        ring_laws::<T>(),
    ensures
        sum4(p, q, r, s).mul_spec(v) == sum4(
            p.mul_spec(v),
            q.mul_spec(v),
            r.mul_spec(v),
            s.mul_spec(v),
        ),
{
    lemma_distributes_right(p.add_spec(q).add_spec(r), s, v);
    lemma_distributes_right(p.add_spec(q), r, v);
    lemma_distributes_right(p, q, v);
}

/// `a * (p + q + r + s) == a * p + a * q + a * r + a * s`.
pub proof fn lemma_times_sum4<T: Scalar>(a: T, p: T, q: T, r: T, s: T)
    requires
        ring_laws::<T>(),
    ensures
        a.mul_spec(sum4(p, q, r, s)) == sum4(
            a.mul_spec(p),
            a.mul_spec(q),
            a.mul_spec(r),
            a.mul_spec(s),
        ),
{
    lemma_distributes_left(a, p.add_spec(q).add_spec(r), s);
    lemma_distributes_left(a, p.add_spec(q), r);
    lemma_distributes_left(a, p, q);
}

/// The sum of the four rows of `t`.
pub open spec fn sum_by_rows<T: Scalar>(t: Seq<T>) -> T {
    sum4(
        sum4(t[0], t[1], t[2], t[3]),
        sum4(t[4], t[5], t[6], t[7]),
        sum4(t[8], t[9], t[10], t[11]),
        sum4(t[12], t[13], t[14], t[15]),
    )
}

/// The sum of the four columns of `t`.
pub open spec fn sum_by_columns<T: Scalar>(t: Seq<T>) -> T {
    sum4(
        sum4(t[0], t[4], t[8], t[12]),
        sum4(t[1], t[5], t[9], t[13]),
        sum4(t[2], t[6], t[10], t[14]),
        sum4(t[3], t[7], t[11], t[15]),
    )
}

/// Sixteen scalars add up to the same sum by rows and by columns.
pub proof fn lemma_sum_grid<T: Scalar>(t: Seq<T>)
    requires
        ring_laws::<T>(),
        t.len() == 16,
    ensures
        sum_by_columns(t) == sum_by_rows(t),
{
    lemma_sum4_pairwise(t[0], t[4], t[8], t[12], t[1], t[5], t[9], t[13]);
    lemma_sum4_pairwise(
        t[0].add_spec(t[1]),
        t[4].add_spec(t[5]),
        t[8].add_spec(t[9]),
        t[12].add_spec(t[13]),
        t[2],
        t[6],
        t[10],
        t[14],
    );
    lemma_sum4_pairwise(
        t[0].add_spec(t[1]).add_spec(t[2]),
        t[4].add_spec(t[5]).add_spec(t[6]),
        t[8].add_spec(t[9]).add_spec(t[10]),
        t[12].add_spec(t[13]).add_spec(t[14]),
        t[3],
        t[7],
        t[11],
        t[15],
    );
}

/// A field is a ring whose multiplication commutes and whose zero and one
/// are neutral.
pub proof fn lemma_field_is_ring<T: Scalar>()
    requires
        field_laws::<T>(),
    ensures
        ring_laws::<T>(),
        multiplication_commutes::<T>(),
        neutral_elements::<T>(),
{
    reveal(field_laws);
}

pub proof fn lemma_sub_is_add_neg<T: Scalar>(a: T, b: T)
    requires
        field_laws::<T>(),
    ensures
        a.sub_spec(b) == a.add_spec(b.neg_spec()),
{
    reveal(field_laws);
}

pub proof fn lemma_add_neg<T: Scalar>(a: T)
    requires
        field_laws::<T>(),
    ensures
        a.add_spec(a.neg_spec()) == num::<T>(0),
        a.neg_spec().add_spec(a) == num::<T>(0),
{
    reveal(field_laws);
    lemma_add_commutes(a, a.neg_spec());
}

/// The negation of `x` is the only scalar that adds up to zero with `x`.
pub proof fn lemma_neg_unique<T: Scalar>(x: T, y: T)
    requires
        field_laws::<T>(),
        x.add_spec(y) == num::<T>(0),
    ensures
        y == x.neg_spec(),
{
    lemma_field_is_ring::<T>();
    lemma_add_neg(x);
    lemma_add_associates(x.neg_spec(), x, y);
}

pub proof fn lemma_neg_zero<T: Scalar>()
    requires
        field_laws::<T>(),
    ensures
        num::<T>(0).neg_spec() == num::<T>(0),
{
    lemma_field_is_ring::<T>();
    lemma_neg_unique(num::<T>(0), num::<T>(0));
}

pub proof fn lemma_neg_neg<T: Scalar>(a: T)
    requires
        field_laws::<T>(),
    ensures
        a.neg_spec().neg_spec() == a,
{
    lemma_add_neg(a);
    lemma_neg_unique(a.neg_spec(), a);
}

/// `-(a + b) == -a + -b`.
pub proof fn lemma_neg_add<T: Scalar>(a: T, b: T)
    requires
        field_laws::<T>(),
    ensures
        a.add_spec(b).neg_spec() == a.neg_spec().add_spec(b.neg_spec()),
{
    lemma_field_is_ring::<T>();
    lemma_shuffle(a, b, a.neg_spec(), b.neg_spec());
    lemma_add_neg(a);
    lemma_add_neg(b);
    lemma_neg_unique(a.add_spec(b), a.neg_spec().add_spec(b.neg_spec()));
}

/// `a * -b == -(a * b)` and `-a * b == -(a * b)`.
pub proof fn lemma_mul_neg<T: Scalar>(a: T, b: T)
    requires
        field_laws::<T>(),
    ensures
        a.mul_spec(b.neg_spec()) == a.mul_spec(b).neg_spec(),
        a.neg_spec().mul_spec(b) == a.mul_spec(b).neg_spec(),
{
    lemma_field_is_ring::<T>();
    lemma_distributes_left(a, b, b.neg_spec());
    lemma_add_neg(b);
    lemma_neg_unique(a.mul_spec(b), a.mul_spec(b.neg_spec()));
    lemma_distributes_right(a, a.neg_spec(), b);
    lemma_add_neg(a);
    lemma_neg_unique(a.mul_spec(b), a.neg_spec().mul_spec(b));
}

/// `-(a - b) == b - a`.
pub proof fn lemma_neg_sub<T: Scalar>(a: T, b: T)
    requires
        field_laws::<T>(),
    ensures
        a.sub_spec(b).neg_spec() == b.sub_spec(a),
{
    lemma_field_is_ring::<T>();
    lemma_sub_is_add_neg(a, b);
    lemma_sub_is_add_neg(b, a);
    lemma_neg_add(a, b.neg_spec());
    lemma_neg_neg(b);
    lemma_add_commutes(a.neg_spec(), b);
}

/// `a * (u - v) == a * u + -(a * v)`.
pub proof fn lemma_mul_sub<T: Scalar>(a: T, u: T, v: T)
    requires
        field_laws::<T>(),
    ensures
        a.mul_spec(u.sub_spec(v)) == a.mul_spec(u).add_spec(a.mul_spec(v).neg_spec()),
{
    lemma_field_is_ring::<T>();
    lemma_sub_is_add_neg(u, v);
    lemma_distributes_left(a, u, v.neg_spec());
    lemma_mul_neg(a, v);
}

/// `x * (y * z) == y * (x * z)`.
pub proof fn lemma_mul_swap<T: Scalar>(x: T, y: T, z: T)
    requires
        field_laws::<T>(),
    ensures
        x.mul_spec(y.mul_spec(z)) == y.mul_spec(x.mul_spec(z)),
{
    lemma_field_is_ring::<T>();
    lemma_mul_associates(x, y, z);
    lemma_mul_associates(y, x, z);
    assert(x.mul_spec(y) == y.mul_spec(x));
}

/// The negation of a sum of four is the sum of the four negations.
pub proof fn lemma_neg_sum4<T: Scalar>(a: T, b: T, c: T, d: T)
    requires
        field_laws::<T>(),
    ensures
        sum4(a, b, c, d).neg_spec() == sum4(
            a.neg_spec(),
            b.neg_spec(),
            c.neg_spec(),
            d.neg_spec(),
        ),
{
    lemma_neg_add(a.add_spec(b).add_spec(c), d);
    lemma_neg_add(a.add_spec(b), c);
    lemma_neg_add(a, b);
}

/// Zero divided by a scalar other than zero is zero.
pub proof fn lemma_zero_div<T: Scalar>(d: T)
    requires
        field_laws::<T>(),
        !d.eq_spec(&num::<T>(0)),
    ensures
        num::<T>(0).div_spec(d) == num::<T>(0),
{
    reveal(field_laws);
    let z = num::<T>(0);
    assert(z.mul_spec(z.div_spec(d)) == z.mul_spec(z).div_spec(d));
    assert(z.mul_spec(z) == z);
    assert(z.mul_spec(z.div_spec(d)) == z);
}

/// `a * (b / d) == (a * b) / d` for a divisor other than zero.
pub proof fn lemma_mul_div<T: Scalar>(a: T, b: T, d: T)
    requires
        field_laws::<T>(),
        !d.eq_spec(&num::<T>(0)),
    ensures
        a.mul_spec(b.div_spec(d)) == a.mul_spec(b).div_spec(d),
{
    reveal(field_laws);
}

/// `a / d + b / d == (a + b) / d` for a divisor other than zero.
pub proof fn lemma_add_div<T: Scalar>(a: T, b: T, d: T)
    requires
        field_laws::<T>(),
        !d.eq_spec(&num::<T>(0)),
    ensures
        a.div_spec(d).add_spec(b.div_spec(d)) == a.add_spec(b).div_spec(d),
{
    reveal(field_laws);
}

/// `d / d == 1` for a divisor other than zero.
pub proof fn lemma_div_self<T: Scalar>(d: T)
    requires
        field_laws::<T>(),
        !d.eq_spec(&num::<T>(0)),
    ensures
        d.div_spec(d) == num::<T>(1),
{
    reveal(field_laws);
}

} // verus!
