//! What holds of the matrix algebra as a whole.
//!
//! Laws that only move scalars hold for every scalar type. Laws that compare
//! the results of different computations need the algebraic laws of the
//! scalar type that they name in their `requires`.

use crate::determinant::{
    cofactor3, cofactor4, det2, det2_defined, det3, det3_defined, det4, det4_defined, term3, term4,
};
use crate::inverse::{inverse3_defined, inverse4, inverse4_defined};
use crate::laplace::{lemma_expansion_along_row, row_times_cofactors};
use crate::matrix::{column_of, identity_seq, row_of, transposed, Matr4};
use crate::multiply::{
    applied4, applied4_defined, applied_vertex, cell4, product4, product4_defined, product_matrix,
};
use crate::quaternion::hamilton_defined;
use crate::ring::{
    lemma_add_div, lemma_div_self, lemma_mul_associates, lemma_mul_div, lemma_sum4_times,
    lemma_sum_grid, lemma_times_sum4, lemma_zero_div, sum_by_columns, sum_by_rows,
};
use crate::scalar::{
    all_close_defined, field_laws, neutral_elements, num, regular, ring_laws, specified,
    total_arithmetic, zero_subtracts_nothing, Scalar,
};
use crate::submatrix::submatrix_of;
use crate::transform::translation_seq;
use crate::vertex::{
    addable, cross4_defined, divisible, dot4, dot4_defined, multipliable, negatable, scalable,
    subtractable, sum4, Vert4,
};
use vstd::arithmetic::div_mod::lemma_fundamental_div_mod;
use vstd::arithmetic::div_mod::lemma_fundamental_div_mod_converse;
use vstd::prelude::*;
use vstd::std_specs::cmp::PartialEqSpec;
use vstd::std_specs::ops::{AddSpec, DivSpec, MulSpec};

verus! {

/// Where every operator of the scalar type accepts every operand, every
/// operation of the algebra is permitted, whatever the scalars are.
pub proof fn lemma_total_arithmetic_permits_all<T: Scalar>(a: Seq<T>, b: Seq<T>)
    requires
        total_arithmetic::<T>(),
    ensures
        all_close_defined(a, b),
        dot4_defined(a, b),
        cross4_defined(a, b),
        hamilton_defined(a, b),
        det2_defined(a),
        det3_defined(a),
        det4_defined(a),
        inverse3_defined(a),
        inverse4_defined(a),
        product4_defined(a, b),
        applied4_defined(a, b),
{
}

/// Where every operator of the scalar type accepts every operand and returns
/// what its specification says, every operator of a vertex accepts every
/// vertex and scalar.
pub proof fn lemma_total_arithmetic_permits_vertices<T: Scalar>(a: Vert4<T>, b: Vert4<T>, s: T)
    requires
        specified::<T>(),
        total_arithmetic::<T>(),
    ensures
        addable(a, b),
        subtractable(a, b),
        negatable(a),
        scalable(a, s),
        multipliable(a, b),
        divisible(a, s),
{
}

/// The scalar of row `r` and column `c` of a transpose is the scalar of row
/// `c` and column `r` of the matrix.
pub proof fn lemma_transposed_at<T>(m: Seq<T>, n: int, r: int, c: int)
    requires
        0 <= r < n,
        0 <= c < n,
    ensures
        0 <= r * n + c < n * n,
        0 <= c * n + r < n * n,
        transposed(m, n)[r * n + c] == m[c * n + r],
{
    assert(0 <= r * n + c < n * n && 0 <= c * n + r < n * n) by (nonlinear_arith)
        requires
            0 <= r < n,
            0 <= c < n,
    ;
    lemma_fundamental_div_mod_converse(r * n + c, n, r, c);
}

/// Transposing twice gives the matrix back, scalar for scalar.
pub proof fn lemma_transpose_involution<T>(m: Seq<T>, n: int)
    requires
        1 <= n,
        m.len() == n * n,
    ensures
        transposed(transposed(m, n), n) =~= m,
{
    let t = transposed(m, n);
    assert forall|i: int| 0 <= i < n * n implies #[trigger] transposed(t, n)[i] == m[i] by {
        let r = i / n;
        let c = i % n;
        lemma_fundamental_div_mod(i, n);
        assert(0 <= c < n);
        assert(i == n * r + c);
        assert(0 <= r < n) by (nonlinear_arith)
            requires
                0 <= i < n * n,
                i == n * r + c,
                0 <= c < n,
                1 <= n,
        ;
        assert(n * r == r * n) by (nonlinear_arith);
        lemma_transposed_at(m, n, c, r);
        assert(t[c * n + r] == m[r * n + c]);
    }
}

/// The view of the product of two matrices is the product of their views.
pub proof fn lemma_product_view<T: Scalar>(a: Matr4<T>, b: Matr4<T>)
    ensures
        product_matrix(a, b)@ =~= product4(a@, b@),
{
}

/// The view of a matrix applied to a vertex is the view of the matrix applied
/// to the view of the vertex.
pub proof fn lemma_applied_view<T: Scalar>(m: Matr4<T>, v: Vert4<T>)
    ensures
        applied_vertex(m, v)@ =~= applied4(m@, v@),
{
}

/// The transpose of a product is the product of the transposes in the other
/// order, where each product of a scalar of `a` with a scalar of `b` is the
/// same in both orders.
pub proof fn lemma_transpose_of_product<T: Scalar>(a: Seq<T>, b: Seq<T>)
    requires
        a.len() == 16,
        b.len() == 16,
        forall|i: int, j: int|
            0 <= i < 16 && 0 <= j < 16 ==> #[trigger] a[i].mul_spec(b[j]) == b[j].mul_spec(a[i]),
    ensures
        transposed(product4(a, b), 4) =~= product4(transposed(b, 4), transposed(a, 4)),
{
    let ta = transposed(a, 4);
    let tb = transposed(b, 4);
    assert forall|i: int| 0 <= i < 16 implies #[trigger] transposed(product4(a, b), 4)[i]
        == product4(tb, ta)[i] by {
        let r = i / 4;
        let c = i % 4;
        assert(transposed(product4(a, b), 4)[i] == cell4(a, b, c, r));
        assert(row_of(tb, 4, r) =~= column_of(b, 4, r));
        assert(column_of(ta, 4, c) =~= row_of(a, 4, c));
        assert(a[c * 4 + 0].mul_spec(b[0 * 4 + r]) == b[0 * 4 + r].mul_spec(a[c * 4 + 0]));
        assert(a[c * 4 + 1].mul_spec(b[1 * 4 + r]) == b[1 * 4 + r].mul_spec(a[c * 4 + 1]));
        assert(a[c * 4 + 2].mul_spec(b[2 * 4 + r]) == b[2 * 4 + r].mul_spec(a[c * 4 + 2]));
        assert(a[c * 4 + 3].mul_spec(b[3 * 4 + r]) == b[3 * 4 + r].mul_spec(a[c * 4 + 3]));
    }
}

/// A translation leaves a free vector as it is, where zero and one treat the
/// three scalars of the vector, the three of the translation and zero itself
/// as they do in a ring.
pub proof fn lemma_translation_keeps_vectors<T: Scalar>(tx: T, ty: T, tz: T, x: T, y: T, z: T)
    requires
        regular(x),
        regular(y),
        regular(z),
        regular(tx),
        regular(ty),
        regular(tz),
        regular(num::<T>(0)),
    ensures
        applied4(translation_seq(tx, ty, tz), seq![x, y, z, num::<T>(0)]) =~= seq![
            x,
            y,
            z,
            num::<T>(0),
        ],
{
    let m = translation_seq(tx, ty, tz);
    let v = seq![x, y, z, num::<T>(0)];
    assert forall|r: int| 0 <= r < 4 implies #[trigger] applied4(m, v)[r] == v[r] by {
        let row = row_of(m, 4, r);
        assert(row[0] == m[r * 4 + 0]);
        assert(row[1] == m[r * 4 + 1]);
        assert(row[2] == m[r * 4 + 2]);
        assert(row[3] == m[r * 4 + 3]);
    }
}

/// The determinant of an identity is one, where zero and one are neutral, a
/// product with zero is zero and subtracting zero changes nothing.
pub proof fn lemma_identity_determinant<T: Scalar>()
    requires
        neutral_elements::<T>(),
        zero_subtracts_nothing::<T>(),
    ensures
        det2(identity_seq::<T>(2)) == num::<T>(1),
        det3(identity_seq::<T>(3)) == num::<T>(1),
        det4(identity_seq::<T>(4)) == num::<T>(1),
{
    let i2 = identity_seq::<T>(2);
    let i3 = identity_seq::<T>(3);
    let i4 = identity_seq::<T>(4);
    assert(i2[0] == num::<T>(1) && i2[1] == num::<T>(0) && i2[2] == num::<T>(0) && i2[3]
        == num::<T>(1));
    assert(det2(i2) == num::<T>(1));
    assert(submatrix_of(i3, 3, 0, 0) =~= i2);
    assert(cofactor3(i3, 0, 0) == num::<T>(1));
    assert(i3[0] == num::<T>(1) && i3[1] == num::<T>(0) && i3[2] == num::<T>(0));
    assert(term3(i3, 0) == num::<T>(1));
    assert(term3(i3, 1) == num::<T>(0));
    assert(term3(i3, 2) == num::<T>(0));
    assert(det3(i3) == num::<T>(1));
    assert(submatrix_of(i4, 4, 0, 0) =~= i3);
    assert(cofactor4(i4, 0, 0) == num::<T>(1));
    assert(i4[0] == num::<T>(1) && i4[1] == num::<T>(0) && i4[2] == num::<T>(0) && i4[3]
        == num::<T>(0));
    assert(term4(i4, 0) == num::<T>(1));
    assert(term4(i4, 1) == num::<T>(0));
    assert(term4(i4, 2) == num::<T>(0));
    assert(term4(i4, 3) == num::<T>(0));
}

/// The identity is neutral for both products, where zero and one are neutral
/// and a product with zero is zero.
pub proof fn lemma_identity_is_neutral<T: Scalar>(m: Seq<T>, v: Seq<T>)
    requires
        neutral_elements::<T>(),
        m.len() == 16,
        v.len() == 4,
    ensures
        product4(identity_seq::<T>(4), m) =~= m,
        product4(m, identity_seq::<T>(4)) =~= m,
        applied4(identity_seq::<T>(4), v) =~= v,
{
    let id = identity_seq::<T>(4);
    assert forall|r: int| 0 <= r < 4 implies #[trigger] applied4(id, v)[r] == v[r] by {
        let row = row_of(id, 4, r);
        assert(row[0] == id[r * 4 + 0] && row[1] == id[r * 4 + 1] && row[2] == id[r * 4 + 2]
            && row[3] == id[r * 4 + 3]);
    }
    assert forall|i: int| 0 <= i < 16 implies #[trigger] product4(id, m)[i] == m[i] by {
        let r = i / 4;
        let c = i % 4;
        let row = row_of(id, 4, r);
        let col = column_of(m, 4, c);
        assert(row[0] == id[r * 4 + 0] && row[1] == id[r * 4 + 1] && row[2] == id[r * 4 + 2]
            && row[3] == id[r * 4 + 3]);
        assert(col[0] == m[c] && col[1] == m[4 + c] && col[2] == m[8 + c] && col[3] == m[12 + c]);
    }
    assert forall|i: int| 0 <= i < 16 implies #[trigger] product4(m, id)[i] == m[i] by {
        let r = i / 4;
        let c = i % 4;
        let row = row_of(m, 4, r);
        let col = column_of(id, 4, c);
        assert(col[0] == id[c] && col[1] == id[4 + c] && col[2] == id[8 + c] && col[3] == id[12
            + c]);
        assert(row[0] == m[r * 4 + 0] && row[1] == m[r * 4 + 1] && row[2] == m[r * 4 + 2]
            && row[3] == m[r * 4 + 3]);
    }
}

/// Row `i` of a product applied to a vertex is row `i` of the first matrix
/// applied to what the second matrix makes of the vertex.
proof fn lemma_apply_product_row<T: Scalar>(a: Seq<T>, b: Seq<T>, v: Seq<T>, i: int)
    requires
        ring_laws::<T>(),
        a.len() == 16,
        b.len() == 16,
        v.len() == 4,
        0 <= i < 4,
    ensures
        applied4(product4(a, b), v)[i] == applied4(a, applied4(b, v))[i],
{
    // t[l * 4 + k] is a[i][l] * (b[l][k] * v[k]).
    let t = Seq::new(16, |j: int| a[i * 4 + j / 4].mul_spec(b[j].mul_spec(v[j % 4])));
    let p = product4(a, b);
    let w = applied4(b, v);
    assert forall|k: int| 0 <= k < 4 implies #[trigger] p[i * 4 + k].mul_spec(v[k]) == sum4(
        t[k],
        t[4 + k],
        t[8 + k],
        t[12 + k],
    ) by {
        let ra = row_of(a, 4, i);
        let cb = column_of(b, 4, k);
        assert(p[i * 4 + k] == dot4(ra, cb));
        lemma_sum4_times(
            ra[0].mul_spec(cb[0]),
            ra[1].mul_spec(cb[1]),
            ra[2].mul_spec(cb[2]),
            ra[3].mul_spec(cb[3]),
            v[k],
        );
        lemma_mul_associates(ra[0], cb[0], v[k]);
        lemma_mul_associates(ra[1], cb[1], v[k]);
        lemma_mul_associates(ra[2], cb[2], v[k]);
        lemma_mul_associates(ra[3], cb[3], v[k]);
    }
    assert forall|l: int| 0 <= l < 4 implies #[trigger] a[i * 4 + l].mul_spec(w[l]) == sum4(
        t[l * 4],
        t[l * 4 + 1],
        t[l * 4 + 2],
        t[l * 4 + 3],
    ) by {
        let rb = row_of(b, 4, l);
        assert(w[l] == dot4(rb, v));
        lemma_times_sum4(
            a[i * 4 + l],
            rb[0].mul_spec(v[0]),
            rb[1].mul_spec(v[1]),
            rb[2].mul_spec(v[2]),
            rb[3].mul_spec(v[3]),
        );
    }
    lemma_sum_grid(t);
    let rp = row_of(p, 4, i);
    let ra = row_of(a, 4, i);
    assert(applied4(p, v)[i] == dot4(rp, v));
    assert(rp[0] == p[i * 4 + 0] && rp[1] == p[i * 4 + 1] && rp[2] == p[i * 4 + 2] && rp[3] == p[i
        * 4 + 3]);
    assert(applied4(p, v)[i] == sum_by_columns(t));
    assert(applied4(a, w)[i] == dot4(ra, w));
    assert(ra[0] == a[i * 4 + 0] && ra[1] == a[i * 4 + 1] && ra[2] == a[i * 4 + 2] && ra[3] == a[i
        * 4 + 3]);
    assert(applied4(a, w)[i] == sum_by_rows(t));
}

/// Applying a product to a vertex is applying the second matrix and then the
/// first, where the scalars obey the laws of a ring.
pub proof fn lemma_product_applies_in_sequence<T: Scalar>(a: Seq<T>, b: Seq<T>, v: Seq<T>)
    requires
        ring_laws::<T>(),
        a.len() == 16,
        b.len() == 16,
        v.len() == 4,
    ensures
        applied4(product4(a, b), v) =~= applied4(a, applied4(b, v)),
{
    assert forall|i: int| 0 <= i < 4 implies #[trigger] applied4(product4(a, b), v)[i] == applied4(
        a,
        applied4(b, v),
    )[i] by {
        lemma_apply_product_row(a, b, v, i);
    }
}

/// A chain of three transforms written as a product applies the rightmost
/// first: `(c * b * a) * p == c * (b * (a * p))`, where the scalars obey the
/// laws of a ring.
pub proof fn lemma_chained_transforms<T: Scalar>(c: Seq<T>, b: Seq<T>, a: Seq<T>, p: Seq<T>)
    requires
        ring_laws::<T>(),
        a.len() == 16,
        b.len() == 16,
        c.len() == 16,
        p.len() == 4,
    ensures
        applied4(product4(product4(c, b), a), p) =~= applied4(c, applied4(b, applied4(a, p))),
{
    lemma_product_applies_in_sequence(product4(c, b), a, p);
    lemma_product_applies_in_sequence(c, b, applied4(a, p));
}

/// The product of matrices is associative, where the scalars obey the laws of
/// a ring.
pub proof fn lemma_product_associates<T: Scalar>(a: Seq<T>, b: Seq<T>, c: Seq<T>)
    requires
        ring_laws::<T>(),
        a.len() == 16,
        b.len() == 16,
        c.len() == 16,
    ensures
        product4(product4(a, b), c) =~= product4(a, product4(b, c)),
{
    let ab = product4(a, b);
    let bc = product4(b, c);
    assert forall|i: int| 0 <= i < 16 implies #[trigger] product4(ab, c)[i] == product4(
        a,
        bc,
    )[i] by {
        let r = i / 4;
        let j = i % 4;
        let cj = column_of(c, 4, j);
        lemma_apply_product_row(a, b, cj, r);
        assert(product4(ab, c)[i] == applied4(ab, cj)[r]);
        assert(column_of(bc, 4, j) =~= applied4(b, cj));
        assert(product4(a, bc)[i] == applied4(a, applied4(b, cj))[r]);
    }
}

/// A matrix times its inverse is the identity, where the scalars obey the
/// laws of a field and the determinant differs from zero.
pub proof fn lemma_inverse_is_right_inverse<T: Scalar>(m: Seq<T>)
    requires
        field_laws::<T>(),
        m.len() == 16,
        !det4(m).eq_spec(&num::<T>(0)),
    ensures
        product4(m, inverse4(m)) =~= identity_seq::<T>(4),
{
    let inv = inverse4(m);
    let d = det4(m);
    assert forall|n: int| 0 <= n < 16 implies #[trigger] product4(m, inv)[n] == identity_seq::<T>(
        4,
    )[n] by {
        let i = n / 4;
        let j = n % 4;
        let row = row_of(m, 4, i);
        let col = column_of(inv, 4, j);
        assert forall|k: int| 0 <= k < 4 implies #[trigger] row[k].mul_spec(col[k]) == m[i * 4
            + k].mul_spec(cofactor4(m, j, k)).div_spec(d) by {
            assert(col[k] == inv[k * 4 + j]);
            assert((k * 4 + j) % 4 == j && (k * 4 + j) / 4 == k);
            lemma_mul_div(m[i * 4 + k], cofactor4(m, j, k), d);
        }
        let t0 = m[i * 4 + 0].mul_spec(cofactor4(m, j, 0));
        let t1 = m[i * 4 + 1].mul_spec(cofactor4(m, j, 1));
        let t2 = m[i * 4 + 2].mul_spec(cofactor4(m, j, 2));
        let t3 = m[i * 4 + 3].mul_spec(cofactor4(m, j, 3));
        assert(row[0].mul_spec(col[0]) == t0.div_spec(d));
        assert(row[1].mul_spec(col[1]) == t1.div_spec(d));
        assert(row[2].mul_spec(col[2]) == t2.div_spec(d));
        assert(row[3].mul_spec(col[3]) == t3.div_spec(d));
        lemma_add_div(t0, t1, d);
        lemma_add_div(t0.add_spec(t1), t2, d);
        lemma_add_div(t0.add_spec(t1).add_spec(t2), t3, d);
        assert(cell4(m, inv, i, j) == row_times_cofactors(m, i, j).div_spec(d));
        lemma_expansion_along_row(m, i, j);
        lemma_div_self(d);
        lemma_zero_div(d);
    }
}

} // verus!
