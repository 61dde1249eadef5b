//! How a determinant changes when the rows of its matrix change places.
//!
//! The determinants of this library expand along the first row. What is
//! proved here brings every other row within reach: exchanging two rows
//! negates the determinant, and a matrix with two equal rows has the
//! determinant zero. All of it holds where the scalars obey the laws of a
//! field.

use crate::determinant::{cofactor3, cofactor4, det2, det3, det4, minor4, signed, term3, term4};
use crate::ring::{
    lemma_add_commutes, lemma_add_neg, lemma_distributes_left, lemma_field_is_ring,
    lemma_mul_neg, lemma_mul_sub, lemma_mul_swap, lemma_neg_add, lemma_neg_neg, lemma_neg_sub,
    lemma_neg_sum4, lemma_neg_zero, lemma_sum4_pairwise, lemma_sum_grid, sum_by_rows,
};
use crate::scalar::{field_laws, num, Scalar};
use crate::submatrix::{kept, skip, submatrix_of};
use crate::vertex::sum4;
use vstd::prelude::*;
use vstd::std_specs::ops::{AddSpec, MulSpec, NegSpec, SubSpec};

verus! {

/// The `n`-row matrix whose row `r` is row `order[r]` of `m`.
pub open spec fn with_rows<T>(m: Seq<T>, n: int, order: Seq<int>) -> Seq<T> {
    Seq::new((n * n) as nat, |i: int| m[order[i / n] * n + i % n])
}

/// The negation of the mirror image of the grid `g`: the scalar of row `k`
/// and column `l` is the negation of the scalar of row `l` and column `k` of
/// `g`.
pub open spec fn negated_mirror<T: Scalar>(g: Seq<T>) -> Seq<T> {
    Seq::new(16, |i: int| g[(i % 4) * 4 + i / 4].neg_spec())
}

/// The part of the grid `g` above its diagonal, with zero elsewhere.
pub open spec fn upper_part<T: Scalar>(g: Seq<T>) -> Seq<T> {
    Seq::new(
        16,
        |i: int|
            if i / 4 < i % 4 {
                g[i]
            } else {
                num::<T>(0)
            },
    )
}

/// The sum of the negated mirror image of a grid is the negation of the sum
/// of the grid.
pub proof fn lemma_negated_mirror_grid<T: Scalar>(g: Seq<T>)
    requires
        field_laws::<T>(),
        g.len() == 16,
    ensures
        sum_by_rows(negated_mirror(g)) == sum_by_rows(g).neg_spec(),
{
    lemma_field_is_ring::<T>();
    let h = negated_mirror(g);
    assert(h[0] == g[0].neg_spec() && h[1] == g[4].neg_spec() && h[2] == g[8].neg_spec() && h[3]
        == g[12].neg_spec());
    assert(h[4] == g[1].neg_spec() && h[5] == g[5].neg_spec() && h[6] == g[9].neg_spec() && h[7]
        == g[13].neg_spec());
    assert(h[8] == g[2].neg_spec() && h[9] == g[6].neg_spec() && h[10] == g[10].neg_spec()
        && h[11] == g[14].neg_spec());
    assert(h[12] == g[3].neg_spec() && h[13] == g[7].neg_spec() && h[14] == g[11].neg_spec()
        && h[15] == g[15].neg_spec());
    lemma_neg_sum4(g[0], g[4], g[8], g[12]);
    lemma_neg_sum4(g[1], g[5], g[9], g[13]);
    lemma_neg_sum4(g[2], g[6], g[10], g[14]);
    lemma_neg_sum4(g[3], g[7], g[11], g[15]);
    lemma_neg_sum4(
        sum4(g[0], g[4], g[8], g[12]),
        sum4(g[1], g[5], g[9], g[13]),
        sum4(g[2], g[6], g[10], g[14]),
        sum4(g[3], g[7], g[11], g[15]),
    );
    lemma_sum_grid(g);
}

/// The sum of a grid whose scalars are the sums of the scalars of two grids
/// is the sum of the sums of the two grids.
pub proof fn lemma_added_grids<T: Scalar>(u: Seq<T>, l: Seq<T>, g: Seq<T>)
    requires
        field_laws::<T>(),
        u.len() == 16,
        l.len() == 16,
        g =~= Seq::new(16, |i: int| u[i].add_spec(l[i])),
    ensures
        sum_by_rows(g) == sum_by_rows(u).add_spec(sum_by_rows(l)),
{
    lemma_field_is_ring::<T>();
    lemma_sum4_pairwise(u[0], u[1], u[2], u[3], l[0], l[1], l[2], l[3]);
    lemma_sum4_pairwise(u[4], u[5], u[6], u[7], l[4], l[5], l[6], l[7]);
    lemma_sum4_pairwise(u[8], u[9], u[10], u[11], l[8], l[9], l[10], l[11]);
    lemma_sum4_pairwise(u[12], u[13], u[14], u[15], l[12], l[13], l[14], l[15]);
    lemma_sum4_pairwise(
        sum4(u[0], u[1], u[2], u[3]),
        sum4(u[4], u[5], u[6], u[7]),
        sum4(u[8], u[9], u[10], u[11]),
        sum4(u[12], u[13], u[14], u[15]),
        sum4(l[0], l[1], l[2], l[3]),
        sum4(l[4], l[5], l[6], l[7]),
        sum4(l[8], l[9], l[10], l[11]),
        sum4(l[12], l[13], l[14], l[15]),
    );
}

/// Scalar `i` of a grid that equals its negated mirror image and has a zero
/// diagonal is scalar `i` of its upper part plus scalar `i` of the negated
/// mirror image of that part.
proof fn lemma_antisymmetric_parts<T: Scalar>(g: Seq<T>, i: int)
    requires
        field_laws::<T>(),
        g.len() == 16,
        0 <= i < 16,
        i / 4 == i % 4 ==> g[i] == num::<T>(0),
        g[i] == g[(i % 4) * 4 + i / 4].neg_spec(),
    ensures
        g[i] == upper_part(g)[i].add_spec(negated_mirror(upper_part(g))[i]),
{
    lemma_field_is_ring::<T>();
    lemma_neg_zero::<T>();
    let k = i / 4;
    let l = i % 4;
    let upper = upper_part(g);
    let lower = negated_mirror(upper);
    assert(lower[i] == upper[l * 4 + k].neg_spec());
    assert((l * 4 + k) / 4 == l && (l * 4 + k) % 4 == k);
    if k < l {
        assert(upper[l * 4 + k] == num::<T>(0));
        assert(upper[i] == g[i]);
    } else if k > l {
        assert(upper[l * 4 + k] == g[l * 4 + k]);
        assert(upper[i] == num::<T>(0));
    } else {
        assert(upper[i] == num::<T>(0));
    }
}

/// A grid that equals its negated mirror image and has a zero diagonal sums
/// to zero.
pub proof fn lemma_antisymmetric_grid<T: Scalar>(g: Seq<T>)
    requires
        field_laws::<T>(),
        g.len() == 16,
        g =~= negated_mirror(g),
        g[0] == num::<T>(0),
        g[5] == num::<T>(0),
        g[10] == num::<T>(0),
        g[15] == num::<T>(0),
    ensures
        sum_by_rows(g) == num::<T>(0),
{
    let upper = upper_part(g);
    let lower = negated_mirror(upper);
    let both = Seq::new(16, |i: int| upper[i].add_spec(lower[i]));
    assert forall|i: int| 0 <= i < 16 implies g[i] == #[trigger] both[i] by {
        assert(negated_mirror(g)[i] == g[(i % 4) * 4 + i / 4].neg_spec());
        if i / 4 == i % 4 {
            assert(i == 0 || i == 5 || i == 10 || i == 15);
        }
        lemma_antisymmetric_parts(g, i);
    }
    lemma_negated_mirror_grid(upper);
    lemma_added_grids(upper, lower, g);
    lemma_add_neg(sum_by_rows(upper));
}

/// Exchanging the two rows of a matrix of two rows negates its determinant.
pub proof fn lemma_swap_rows2<T: Scalar>(y: Seq<T>)
    requires
        field_laws::<T>(),
        y.len() == 4,
    ensures
        det2(with_rows(y, 2, seq![1, 0])) == det2(y).neg_spec(),
{
    lemma_field_is_ring::<T>();
    let s = with_rows(y, 2, seq![1, 0]);
    assert(s[0] == y[2] && s[1] == y[3] && s[2] == y[0] && s[3] == y[1]);
    lemma_neg_sub(y[0].mul_spec(y[3]), y[1].mul_spec(y[2]));
}

/// The product of the scalar of column `k` of the first row, that of column
/// `l` of the second row and that of the remaining column of the third row
/// of the matrix `y` of three rows.
pub open spec fn monomial3<T: Scalar>(y: Seq<T>, k: int, l: int) -> T {
    y[k].mul_spec(y[3 + l].mul_spec(y[6 + (3 - k - l)]))
}

/// The six products of the determinant of the matrix `y` of three rows, laid
/// out by the columns that they take from the first and the second row, each
/// with its sign, and zero elsewhere.
pub open spec fn grid3<T: Scalar>(y: Seq<T>) -> Seq<T> {
    Seq::new(
        16,
        |i: int|
            if i / 4 == i % 4 || i / 4 == 3 || i % 4 == 3 {
                num::<T>(0)
            } else if (i % 4 - i / 4 + 3) % 3 == 1 {
                monomial3(y, i / 4, i % 4)
            } else {
                monomial3(y, i / 4, i % 4).neg_spec()
            },
    )
}

/// The term of column `k` in the expansion of a determinant of three rows is
/// the sum of row `k` of its grid.
proof fn lemma_term3_as_row<T: Scalar>(y: Seq<T>, k: int)
    requires
        field_laws::<T>(),
        y.len() == 9,
        0 <= k < 3,
    ensures
        term3(y, k) == sum4(
            grid3(y)[k * 4 + 0],
            grid3(y)[k * 4 + 1],
            grid3(y)[k * 4 + 2],
            grid3(y)[k * 4 + 3],
        ),
{
    lemma_field_is_ring::<T>();
    let g = grid3(y);
    let sub = submatrix_of(y, 3, 0, k);
    if k == 0 {
        assert(sub =~= seq![y[4], y[5], y[7], y[8]]);
        lemma_mul_sub(y[0], y[4].mul_spec(y[8]), y[5].mul_spec(y[7]));
        assert(g[1] == monomial3(y, 0, 1));
        assert(g[2] == monomial3(y, 0, 2).neg_spec());
        assert(g[0] == num::<T>(0) && g[3] == num::<T>(0));
    } else if k == 1 {
        assert(sub =~= seq![y[3], y[5], y[6], y[8]]);
        lemma_neg_sub(y[3].mul_spec(y[8]), y[5].mul_spec(y[6]));
        lemma_mul_sub(y[1], y[5].mul_spec(y[6]), y[3].mul_spec(y[8]));
        assert(g[4] == monomial3(y, 1, 0).neg_spec());
        assert(g[6] == monomial3(y, 1, 2));
        assert(g[5] == num::<T>(0) && g[7] == num::<T>(0));
        lemma_add_commutes(g[4], g[6]);
    } else {
        assert(sub =~= seq![y[3], y[4], y[6], y[7]]);
        lemma_mul_sub(y[2], y[3].mul_spec(y[7]), y[4].mul_spec(y[6]));
        assert(g[8] == monomial3(y, 2, 0));
        assert(g[9] == monomial3(y, 2, 1).neg_spec());
        assert(g[10] == num::<T>(0) && g[11] == num::<T>(0));
    }
}

/// The determinant of a matrix of three rows is the sum of its grid.
pub proof fn lemma_det3_as_grid<T: Scalar>(y: Seq<T>)
    requires
        field_laws::<T>(),
        y.len() == 9,
    ensures
        det3(y) == sum_by_rows(grid3(y)),
{
    lemma_field_is_ring::<T>();
    let g = grid3(y);
    lemma_term3_as_row(y, 0);
    lemma_term3_as_row(y, 1);
    lemma_term3_as_row(y, 2);
    assert(g[12] == num::<T>(0) && g[13] == num::<T>(0) && g[14] == num::<T>(0) && g[15]
        == num::<T>(0));
}

/// Exchanging the first two rows of a matrix of three rows negates its
/// determinant.
pub proof fn lemma_swap_rows3_first<T: Scalar>(y: Seq<T>)
    requires
        field_laws::<T>(),
        y.len() == 9,
    ensures
        det3(with_rows(y, 3, seq![1, 0, 2])) == det3(y).neg_spec(),
{
    lemma_neg_zero::<T>();
    let s = with_rows(y, 3, seq![1, 0, 2]);
    assert forall|i: int| 0 <= i < 16 implies #[trigger] grid3(s)[i] == negated_mirror(
        grid3(y),
    )[i] by {
        let k = i / 4;
        let l = i % 4;
        assert(negated_mirror(grid3(y))[i] == grid3(y)[l * 4 + k].neg_spec());
        assert((l * 4 + k) / 4 == l && (l * 4 + k) % 4 == k);
        if k != l && k < 3 && l < 3 {
            let m = 3 - k - l;
            assert(s[k] == y[3 + k] && s[3 + l] == y[l] && s[6 + m] == y[6 + m]);
            lemma_mul_swap(y[3 + k], y[l], y[6 + m]);
            assert(monomial3(s, k, l) == monomial3(y, l, k));
            lemma_neg_neg(monomial3(y, l, k));
        }
    }
    assert(grid3(s) =~= negated_mirror(grid3(y)));
    lemma_negated_mirror_grid(grid3(y));
    lemma_det3_as_grid(y);
    lemma_det3_as_grid(s);
}

/// The negation of zero plus three terms is zero plus the negated terms.
proof fn lemma_neg_expansion3<T: Scalar>(a: T, b: T, c: T)
    requires
        field_laws::<T>(),
    ensures
        num::<T>(0).add_spec(a).add_spec(b).add_spec(c).neg_spec() == num::<T>(0).add_spec(
            a.neg_spec(),
        ).add_spec(b.neg_spec()).add_spec(c.neg_spec()),
{
    lemma_neg_zero::<T>();
    lemma_neg_sum4(num::<T>(0), a, b, c);
}

/// Exchanging the last two rows of a matrix of three rows negates its
/// determinant.
pub proof fn lemma_swap_rows3_last<T: Scalar>(y: Seq<T>)
    requires
        field_laws::<T>(),
        y.len() == 9,
    ensures
        det3(with_rows(y, 3, seq![0, 2, 1])) == det3(y).neg_spec(),
{
    let s = with_rows(y, 3, seq![0, 2, 1]);
    assert forall|k: int| 0 <= k < 3 implies #[trigger] term3(s, k) == term3(y, k).neg_spec() by {
        let sub = submatrix_of(y, 3, 0, k);
        assert(submatrix_of(s, 3, 0, k) =~= with_rows(sub, 2, seq![1, 0]));
        lemma_swap_rows2(sub);
        assert(s[k] == y[k]);
        lemma_neg_neg(det2(sub));
        lemma_mul_neg(y[k], cofactor3(y, 0, k));
    }
    lemma_neg_expansion3(term3(y, 0), term3(y, 1), term3(y, 2));
}

/// The smaller of the two columns other than `k` and `l` of a matrix of four
/// rows.
pub open spec fn lower_column(k: int, l: int) -> int {
    if k != 0 && l != 0 {
        0
    } else if k != 1 && l != 1 {
        1
    } else {
        2
    }
}

/// The larger of the two columns other than `k` and `l` of a matrix of four
/// rows.
pub open spec fn upper_column(k: int, l: int) -> int {
    if k != 3 && l != 3 {
        3
    } else if k != 2 && l != 2 {
        2
    } else {
        1
    }
}

/// The determinant of the last two rows of the matrix `x` of four rows,
/// restricted to the two columns other than `k` and `l`.
pub open spec fn delta<T: Scalar>(x: Seq<T>, k: int, l: int) -> T {
    det2(
        seq![
            x[8 + lower_column(k, l)],
            x[8 + upper_column(k, l)],
            x[12 + lower_column(k, l)],
            x[12 + upper_column(k, l)],
        ],
    )
}

/// The product of the scalar of column `k` of the first row, that of column
/// `l` of the second row and the determinant that the last two rows have in
/// the remaining columns of the matrix `x` of four rows.
pub open spec fn monomial4<T: Scalar>(x: Seq<T>, k: int, l: int) -> T {
    x[k].mul_spec(x[4 + l].mul_spec(delta(x, k, l)))
}

/// The twelve products of the determinant of the matrix `x` of four rows,
/// laid out by the columns that they take from the first and the second row,
/// each with its sign, and zero on the diagonal.
pub open spec fn grid4<T: Scalar>(x: Seq<T>) -> Seq<T> {
    Seq::new(
        16,
        |i: int|
            if i / 4 == i % 4 {
                num::<T>(0)
            } else if (i / 4 + kept(i % 4, i / 4)) % 2 == 0 {
                monomial4(x, i / 4, i % 4)
            } else {
                monomial4(x, i / 4, i % 4).neg_spec()
            },
    )
}

/// What the second row and the last two rows contribute to the term of
/// column `k`: the term of column `lp` in the expansion of the submatrix
/// without the first row and column `k`.
proof fn lemma_inner_term<T: Scalar>(x: Seq<T>, k: int, lp: int)
    requires
        field_laws::<T>(),
        x.len() == 16,
        0 <= k < 4,
        0 <= lp < 3,
    ensures
        term3(submatrix_of(x, 4, 0, k), lp) == signed(
            x[4 + skip(lp, k)].mul_spec(delta(x, k, skip(lp, k))),
            0,
            lp,
        ),
{
    let y = submatrix_of(x, 4, 0, k);
    let l = skip(lp, k);
    let p = lower_column(k, l);
    let q = upper_column(k, l);
    assert(y[lp] == x[4 + l]);
    assert forall|j: int| 0 <= j < 3 implies #[trigger] y[3 + j] == x[8 + skip(j, k)] && y[6 + j]
        == x[12 + skip(j, k)] by {}
    let sub = submatrix_of(y, 3, 0, lp);
    assert(sub[0] == y[3 + skip(0, lp)]);
    assert(sub[1] == y[3 + skip(1, lp)]);
    assert(sub[2] == y[6 + skip(0, lp)]);
    assert(sub[3] == y[6 + skip(1, lp)]);
    assert(skip(skip(0, lp), k) == p);
    assert(skip(skip(1, lp), k) == q);
    assert(sub =~= seq![x[8 + p], x[8 + q], x[12 + p], x[12 + q]]);
    assert(cofactor3(y, 0, lp) == signed(delta(x, k, l), 0, lp));
    lemma_mul_neg(x[4 + l], delta(x, k, l));
}

/// The term of column `k` in the expansion of a determinant of four rows is
/// the sum of row `k` of its grid.
proof fn lemma_term4_as_row<T: Scalar>(x: Seq<T>, k: int)
    requires
        field_laws::<T>(),
        x.len() == 16,
        0 <= k < 4,
    ensures
        term4(x, k) == sum4(
            grid4(x)[k * 4 + 0],
            grid4(x)[k * 4 + 1],
            grid4(x)[k * 4 + 2],
            grid4(x)[k * 4 + 3],
        ),
{
    lemma_field_is_ring::<T>();
    let g = grid4(x);
    let y = submatrix_of(x, 4, 0, k);
    let zero = num::<T>(0);
    // The three products of the second row with the last two rows.
    let v0 = x[4 + skip(0, k)].mul_spec(delta(x, k, skip(0, k)));
    let v1 = x[4 + skip(1, k)].mul_spec(delta(x, k, skip(1, k)));
    let v2 = x[4 + skip(2, k)].mul_spec(delta(x, k, skip(2, k)));
    lemma_inner_term(x, k, 0);
    lemma_inner_term(x, k, 1);
    lemma_inner_term(x, k, 2);
    assert(det3(y) == zero.add_spec(v0).add_spec(v1.neg_spec()).add_spec(v2));
    // The same three with the scalar of the first row.
    let w0 = x[k].mul_spec(v0);
    let w1 = x[k].mul_spec(v1);
    let w2 = x[k].mul_spec(v2);
    lemma_distributes_left(x[k], zero.add_spec(v0).add_spec(v1.neg_spec()), v2);
    lemma_distributes_left(x[k], zero.add_spec(v0), v1.neg_spec());
    lemma_distributes_left(x[k], zero, v0);
    lemma_mul_neg(x[k], v1);
    let spread = zero.add_spec(w0).add_spec(w1.neg_spec()).add_spec(w2);
    assert(x[k].mul_spec(det3(y)) == spread);
    lemma_mul_neg(x[k], det3(y));
    lemma_neg_expansion3(w0, w1.neg_spec(), w2);
    lemma_neg_neg(w1);
    assert(spread.neg_spec() == zero.add_spec(w0.neg_spec()).add_spec(w1).add_spec(
        w2.neg_spec(),
    ));
    assert(g[k * 4 + skip(0, k)] == (if k % 2 == 0 {
        w0
    } else {
        w0.neg_spec()
    }));
    assert(g[k * 4 + skip(1, k)] == (if k % 2 == 0 {
        w1.neg_spec()
    } else {
        w1
    }));
    assert(g[k * 4 + skip(2, k)] == (if k % 2 == 0 {
        w2
    } else {
        w2.neg_spec()
    }));
    assert(g[k * 4 + k] == zero);
}

/// The determinant of a matrix of four rows is the sum of its grid.
pub proof fn lemma_det4_as_grid<T: Scalar>(x: Seq<T>)
    requires
        field_laws::<T>(),
        x.len() == 16,
    ensures
        det4(x) == sum_by_rows(grid4(x)),
{
    lemma_field_is_ring::<T>();
    lemma_term4_as_row(x, 0);
    lemma_term4_as_row(x, 1);
    lemma_term4_as_row(x, 2);
    lemma_term4_as_row(x, 3);
}

/// Exchanging the first two rows of a matrix of four rows negates its
/// determinant.
pub proof fn lemma_swap_rows4_first<T: Scalar>(x: Seq<T>)
    requires
        field_laws::<T>(),
        x.len() == 16,
    ensures
        det4(with_rows(x, 4, seq![1, 0, 2, 3])) == det4(x).neg_spec(),
{
    lemma_neg_zero::<T>();
    let s = with_rows(x, 4, seq![1, 0, 2, 3]);
    assert forall|i: int| 0 <= i < 16 implies #[trigger] grid4(s)[i] == negated_mirror(
        grid4(x),
    )[i] by {
        let k = i / 4;
        let l = i % 4;
        assert(negated_mirror(grid4(x))[i] == grid4(x)[l * 4 + k].neg_spec());
        assert((l * 4 + k) / 4 == l && (l * 4 + k) % 4 == k);
        if k != l {
            let p = lower_column(k, l);
            let q = upper_column(k, l);
            assert(s[k] == x[4 + k] && s[4 + l] == x[l]);
            assert(s[8 + p] == x[8 + p] && s[8 + q] == x[8 + q] && s[12 + p] == x[12 + p] && s[12
                + q] == x[12 + q]);
            assert(delta(s, k, l) == delta(x, l, k));
            lemma_mul_swap(x[4 + k], x[l], delta(x, l, k));
            assert(monomial4(s, k, l) == monomial4(x, l, k));
            lemma_neg_neg(monomial4(x, l, k));
        }
    }
    assert(grid4(s) =~= negated_mirror(grid4(x)));
    lemma_negated_mirror_grid(grid4(x));
    lemma_det4_as_grid(x);
    lemma_det4_as_grid(s);
}

/// A matrix of four rows whose first two rows are equal has the determinant
/// zero.
pub proof fn lemma_equal_rows4_first<T: Scalar>(x: Seq<T>)
    requires
        field_laws::<T>(),
        x.len() == 16,
        x[0] == x[4],
        x[1] == x[5],
        x[2] == x[6],
        x[3] == x[7],
    ensures
        det4(x) == num::<T>(0),
{
    let g = grid4(x);
    assert forall|i: int| 0 <= i < 16 implies #[trigger] g[i] == negated_mirror(g)[i] by {
        let k = i / 4;
        let l = i % 4;
        assert(negated_mirror(g)[i] == g[l * 4 + k].neg_spec());
        assert((l * 4 + k) / 4 == l && (l * 4 + k) % 4 == k);
        if k != l {
            assert(x[k] == x[4 + k] && x[l] == x[4 + l]);
            assert(delta(x, k, l) == delta(x, l, k));
            lemma_mul_swap(x[k], x[l], delta(x, k, l));
            assert(monomial4(x, k, l) == monomial4(x, l, k));
            lemma_neg_neg(monomial4(x, l, k));
        } else {
            lemma_neg_zero::<T>();
        }
    }
    assert(g =~= negated_mirror(g));
    lemma_antisymmetric_grid(g);
    lemma_det4_as_grid(x);
}

/// The negation of zero plus four terms is zero plus the negated terms.
proof fn lemma_neg_expansion4<T: Scalar>(a: T, b: T, c: T, d: T)
    requires
        field_laws::<T>(),
    ensures
        num::<T>(0).add_spec(a).add_spec(b).add_spec(c).add_spec(d).neg_spec() == num::<T>(
            0,
        ).add_spec(a.neg_spec()).add_spec(b.neg_spec()).add_spec(c.neg_spec()).add_spec(
            d.neg_spec(),
        ),
{
    lemma_neg_expansion3(a, b, c);
    lemma_neg_add(num::<T>(0).add_spec(a).add_spec(b).add_spec(c), d);
}

/// Where each submatrix along the first row of `s` has the negated
/// determinant of that of `x` and the first rows are equal, the determinant
/// of `s` is the negation of that of `x`.
proof fn lemma_negated_minors4<T: Scalar>(x: Seq<T>, s: Seq<T>)
    requires
        field_laws::<T>(),
        x.len() == 16,
        s.len() == 16,
        s[0] == x[0] && s[1] == x[1] && s[2] == x[2] && s[3] == x[3],
        minor4(s, 0, 0) == minor4(x, 0, 0).neg_spec(),
        minor4(s, 0, 1) == minor4(x, 0, 1).neg_spec(),
        minor4(s, 0, 2) == minor4(x, 0, 2).neg_spec(),
        minor4(s, 0, 3) == minor4(x, 0, 3).neg_spec(),
    ensures
        det4(s) == det4(x).neg_spec(),
{
    lemma_mul_neg(x[0], cofactor4(x, 0, 0));
    lemma_mul_neg(x[1], cofactor4(x, 0, 1));
    lemma_mul_neg(x[2], cofactor4(x, 0, 2));
    lemma_mul_neg(x[3], cofactor4(x, 0, 3));
    assert(term4(s, 0) == term4(x, 0).neg_spec());
    assert(term4(s, 1) == term4(x, 1).neg_spec());
    assert(term4(s, 2) == term4(x, 2).neg_spec());
    assert(term4(s, 3) == term4(x, 3).neg_spec());
    lemma_neg_expansion4(term4(x, 0), term4(x, 1), term4(x, 2), term4(x, 3));
}

/// Exchanging the second and the third row of a matrix of four rows negates
/// its determinant.
pub proof fn lemma_swap_rows4_middle<T: Scalar>(x: Seq<T>)
    requires
        field_laws::<T>(),
        x.len() == 16,
    ensures
        det4(with_rows(x, 4, seq![0, 2, 1, 3])) == det4(x).neg_spec(),
{
    let s = with_rows(x, 4, seq![0, 2, 1, 3]);
    assert forall|k: int| 0 <= k < 4 implies #[trigger] minor4(s, 0, k) == minor4(
        x,
        0,
        k,
    ).neg_spec() by {
        let sub = submatrix_of(x, 4, 0, k);
        assert(submatrix_of(s, 4, 0, k) =~= with_rows(sub, 3, seq![1, 0, 2]));
        lemma_swap_rows3_first(sub);
    }
    assert(s[0] == x[0] && s[1] == x[1] && s[2] == x[2] && s[3] == x[3]);
    lemma_negated_minors4(x, s);
}

/// Exchanging the last two rows of a matrix of four rows negates its
/// determinant.
pub proof fn lemma_swap_rows4_last<T: Scalar>(x: Seq<T>)
    requires
        field_laws::<T>(),
        x.len() == 16,
    ensures
        det4(with_rows(x, 4, seq![0, 1, 3, 2])) == det4(x).neg_spec(),
{
    let s = with_rows(x, 4, seq![0, 1, 3, 2]);
    assert forall|k: int| 0 <= k < 4 implies #[trigger] minor4(s, 0, k) == minor4(
        x,
        0,
        k,
    ).neg_spec() by {
        let sub = submatrix_of(x, 4, 0, k);
        assert(submatrix_of(s, 4, 0, k) =~= with_rows(sub, 3, seq![0, 2, 1]));
        lemma_swap_rows3_last(sub);
    }
    assert(s[0] == x[0] && s[1] == x[1] && s[2] == x[2] && s[3] == x[3]);
    lemma_negated_minors4(x, s);
}

/// A matrix of four rows whose first row equals its row `p` has the
/// determinant zero.
pub proof fn lemma_equal_rows4<T: Scalar>(x: Seq<T>, p: int)
    requires
        field_laws::<T>(),
        x.len() == 16,
        1 <= p < 4,
        x[0] == x[p * 4 + 0],
        x[1] == x[p * 4 + 1],
        x[2] == x[p * 4 + 2],
        x[3] == x[p * 4 + 3],
    ensures
        det4(x) == num::<T>(0),
{
    lemma_neg_zero::<T>();
    if p == 1 {
        lemma_equal_rows4_first(x);
    } else if p == 2 {
        let z = with_rows(x, 4, seq![0, 2, 1, 3]);
        assert(z[0] == x[0] && z[1] == x[1] && z[2] == x[2] && z[3] == x[3]);
        assert(z[4] == x[8] && z[5] == x[9] && z[6] == x[10] && z[7] == x[11]);
        lemma_equal_rows4_first(z);
        lemma_swap_rows4_middle(x);
        lemma_neg_neg(det4(x));
    } else {
        let y = with_rows(x, 4, seq![0, 1, 3, 2]);
        let z = with_rows(y, 4, seq![0, 2, 1, 3]);
        assert(y[0] == x[0] && y[1] == x[1] && y[2] == x[2] && y[3] == x[3]);
        assert(y[8] == x[12] && y[9] == x[13] && y[10] == x[14] && y[11] == x[15]);
        assert(z[0] == y[0] && z[1] == y[1] && z[2] == y[2] && z[3] == y[3]);
        assert(z[4] == y[8] && z[5] == y[9] && z[6] == y[10] && z[7] == y[11]);
        lemma_equal_rows4_first(z);
        lemma_swap_rows4_middle(y);
        lemma_neg_neg(det4(y));
        lemma_swap_rows4_last(x);
        lemma_neg_neg(det4(x));
    }
}

/// The order of rows that puts row `i` first and lets the rows other than
/// `j` follow in their order.
pub open spec fn row_first(i: int, j: int) -> Seq<int> {
    seq![i, skip(0, j), skip(1, j), skip(2, j)]
}

/// Row `i` of the matrix `m` of four rows times the cofactors of row `j`.
pub open spec fn row_times_cofactors<T: Scalar>(m: Seq<T>, i: int, j: int) -> T {
    sum4(
        m[i * 4 + 0].mul_spec(cofactor4(m, j, 0)),
        m[i * 4 + 1].mul_spec(cofactor4(m, j, 1)),
        m[i * 4 + 2].mul_spec(cofactor4(m, j, 2)),
        m[i * 4 + 3].mul_spec(cofactor4(m, j, 3)),
    )
}

/// Row `i` times the cofactors of row `j` is the determinant of the matrix
/// with row `i` first and the rows other than `j` after it, negated where
/// `j` is odd.
proof fn lemma_row_times_cofactors<T: Scalar>(m: Seq<T>, i: int, j: int)
    requires
        field_laws::<T>(),
        m.len() == 16,
        0 <= i < 4,
        0 <= j < 4,
    ensures
        row_times_cofactors(m, i, j) == signed(det4(with_rows(m, 4, row_first(i, j))), j, 0),
{
    lemma_field_is_ring::<T>();
    let x = with_rows(m, 4, row_first(i, j));
    assert forall|k: int| 0 <= k < 4 implies #[trigger] m[i * 4 + k].mul_spec(cofactor4(m, j, k))
        == signed(term4(x, k), j, 0) by {
        assert(submatrix_of(x, 4, 0, k) =~= submatrix_of(m, 4, j, k));
        assert(x[k] == m[i * 4 + k]);
        lemma_neg_neg(minor4(m, j, k));
        lemma_mul_neg(x[k], cofactor4(x, 0, k));
    }
    assert(m[i * 4 + 0].mul_spec(cofactor4(m, j, 0)) == signed(term4(x, 0), j, 0));
    assert(m[i * 4 + 1].mul_spec(cofactor4(m, j, 1)) == signed(term4(x, 1), j, 0));
    assert(m[i * 4 + 2].mul_spec(cofactor4(m, j, 2)) == signed(term4(x, 2), j, 0));
    assert(m[i * 4 + 3].mul_spec(cofactor4(m, j, 3)) == signed(term4(x, 3), j, 0));
    lemma_neg_sum4(term4(x, 0), term4(x, 1), term4(x, 2), term4(x, 3));
}

/// The determinant of the matrix with row `j` first and the other rows after
/// it is the determinant of the matrix, negated where `j` is odd.
proof fn lemma_row_moved_first<T: Scalar>(m: Seq<T>, j: int)
    requires
        field_laws::<T>(),
        m.len() == 16,
        0 <= j < 4,
    ensures
        det4(with_rows(m, 4, row_first(j, j))) == signed(det4(m), j, 0),
{
    let x = with_rows(m, 4, row_first(j, j));
    if j == 0 {
        assert(x =~= m);
    } else if j == 1 {
        assert(x =~= with_rows(m, 4, seq![1, 0, 2, 3]));
        lemma_swap_rows4_first(m);
    } else if j == 2 {
        let z = with_rows(m, 4, seq![0, 2, 1, 3]);
        assert(with_rows(x, 4, seq![1, 0, 2, 3]) =~= z);
        lemma_swap_rows4_first(x);
        lemma_swap_rows4_middle(m);
        lemma_neg_neg(det4(x));
        lemma_neg_neg(det4(m));
    } else {
        let y = with_rows(x, 4, seq![1, 0, 2, 3]);
        let z = with_rows(y, 4, seq![0, 2, 1, 3]);
        assert(z =~= with_rows(m, 4, seq![0, 1, 3, 2]));
        lemma_swap_rows4_first(x);
        lemma_swap_rows4_middle(y);
        lemma_swap_rows4_last(m);
        lemma_neg_neg(det4(x));
    }
}

/// The expansion along any row: row `i` times the cofactors of row `j` is the
/// determinant where `i` is `j`, and zero otherwise.
pub proof fn lemma_expansion_along_row<T: Scalar>(m: Seq<T>, i: int, j: int)
    requires
        field_laws::<T>(),
        m.len() == 16,
        0 <= i < 4,
        0 <= j < 4,
    ensures
        row_times_cofactors(m, i, j) == (if i == j {
            det4(m)
        } else {
            num::<T>(0)
        }),
{
    lemma_row_times_cofactors(m, i, j);
    let x = with_rows(m, 4, row_first(i, j));
    if i == j {
        lemma_row_moved_first(m, j);
        lemma_neg_neg(det4(m));
    } else {
        // Row `i` of `m` stands first in `x` and again at `p`.
        let p = kept(i, j) + 1;
        assert(skip(p - 1, j) == i);
        assert(x[0] == x[p * 4 + 0] && x[1] == x[p * 4 + 1] && x[2] == x[p * 4 + 2] && x[3] == x[p
            * 4 + 3]);
        lemma_equal_rows4(x, p);
        lemma_neg_zero::<T>();
    }
}

} // verus!
