//! The products of a four-row matrix with a matrix and with a vertex.

use crate::matrix::{column_of, row_of, Matr4};
use crate::scalar::{specified, Scalar};
use crate::vertex::{dot4, dot4_defined, Vert4};
use vstd::prelude::*;
use vstd::std_specs::ops::MulSpecImpl;

verus! {

/// The scalar of row `r` and column `c` of the product of the four-row
/// matrices `a` and `b`: row `r` of `a` times column `c` of `b`.
pub open spec fn cell4<T: Scalar>(a: Seq<T>, b: Seq<T>, r: int, c: int) -> T {
    dot4(row_of(a, 4, r), column_of(b, 4, c))
}

/// The product of the four-row matrices `a` and `b`.
pub open spec fn product4<T: Scalar>(a: Seq<T>, b: Seq<T>) -> Seq<T> {
    Seq::new(16, |i: int| cell4(a, b, i / 4, i % 4))
}

/// The operations of `product4(a, b)` are permitted.
pub open spec fn product4_defined<T: Scalar>(a: Seq<T>, b: Seq<T>) -> bool {
    forall|r: int, c: int|
        0 <= r < 4 && 0 <= c < 4 ==> dot4_defined(
            #[trigger] row_of(a, 4, r),
            #[trigger] column_of(b, 4, c),
        )
}

/// The four-row matrix `m` applied to the vertex `v`, taken as a column:
/// scalar `r` of the result is row `r` of `m` times `v`.
pub open spec fn applied4<T: Scalar>(m: Seq<T>, v: Seq<T>) -> Seq<T> {
    Seq::new(4, |r: int| dot4(row_of(m, 4, r), v))
}

/// The operations of `applied4(m, v)` are permitted.
pub open spec fn applied4_defined<T: Scalar>(m: Seq<T>, v: Seq<T>) -> bool {
    forall|r: int| 0 <= r < 4 ==> dot4_defined(#[trigger] row_of(m, 4, r), v)
}

/// The matrix whose view is `product4(a@, b@)`.
pub open spec fn product_matrix<T: Scalar>(a: Matr4<T>, b: Matr4<T>) -> Matr4<T> {
    Matr4(
        [
            cell4(a@, b@, 0, 0),
            cell4(a@, b@, 0, 1),
            cell4(a@, b@, 0, 2),
            cell4(a@, b@, 0, 3),
            cell4(a@, b@, 1, 0),
            cell4(a@, b@, 1, 1),
            cell4(a@, b@, 1, 2),
            cell4(a@, b@, 1, 3),
            cell4(a@, b@, 2, 0),
            cell4(a@, b@, 2, 1),
            cell4(a@, b@, 2, 2),
            cell4(a@, b@, 2, 3),
            cell4(a@, b@, 3, 0),
            cell4(a@, b@, 3, 1),
            cell4(a@, b@, 3, 2),
            cell4(a@, b@, 3, 3),
        ],
    )
}

/// The vertex whose view is `applied4(m@, v@)`.
pub open spec fn applied_vertex<T: Scalar>(m: Matr4<T>, v: Vert4<T>) -> Vert4<T> {
    Vert4(
        [
            dot4(row_of(m@, 4, 0), v@),
            dot4(row_of(m@, 4, 1), v@),
            dot4(row_of(m@, 4, 2), v@),
            dot4(row_of(m@, 4, 3), v@),
        ],
    )
}

impl<T: Scalar> MulSpecImpl<Matr4<T>> for Matr4<T> {
    open spec fn obeys_mul_spec() -> bool {
        true
    }

    open spec fn mul_req(self, rhs: Matr4<T>) -> bool {
        specified::<T>() && product4_defined(self@, rhs@)
    }

    open spec fn mul_spec(self, rhs: Matr4<T>) -> Matr4<T> {
        product_matrix(self, rhs)
    }
}

/// Rows times columns.
impl<T: Scalar> core::ops::Mul<Matr4<T>> for Matr4<T> {
    type Output = Matr4<T>;

    fn mul(self, rhs: Matr4<T>) -> (out: Matr4<T>) {
        let mut output: Matr4<T> = Matr4::identity();
        let rows = self.as_row_vectors();
        let cols = rhs.as_column_vectors();
        let mut row_idx: usize = 0;
        while row_idx < 4
            invariant
                specified::<T>(),
                product4_defined(self@, rhs@),
                row_idx <= 4,
                output@.len() == 16,
                forall|r: int| 0 <= r < 4 ==> (#[trigger] rows@[r])@ =~= row_of(self@, 4, r),
                forall|c: int| 0 <= c < 4 ==> (#[trigger] cols@[c])@ =~= column_of(rhs@, 4, c),
                forall|i: int|
                    0 <= i < 4 * row_idx ==> #[trigger] output@[i] == cell4(
                        self@,
                        rhs@,
                        i / 4,
                        i % 4,
                    ),
            decreases 4 - row_idx,
        {
            let mut col_idx: usize = 0;
            while col_idx < 4
                invariant
                    specified::<T>(),
                    product4_defined(self@, rhs@),
                    row_idx < 4,
                    col_idx <= 4,
                    output@.len() == 16,
                    forall|r: int| 0 <= r < 4 ==> (#[trigger] rows@[r])@ =~= row_of(self@, 4, r),
                    forall|c: int| 0 <= c < 4 ==> (#[trigger] cols@[c])@ =~= column_of(rhs@, 4, c),
                    forall|i: int|
                        0 <= i < 4 * row_idx + col_idx ==> #[trigger] output@[i] == cell4(
                            self@,
                            rhs@,
                            i / 4,
                            i % 4,
                        ),
                decreases 4 - col_idx,
            {
                let row = rows[row_idx];
                let col = cols[col_idx];
                assert(dot4_defined(
                    row_of(self@, 4, row_idx as int),
                    column_of(rhs@, 4, col_idx as int),
                ));
                let value = (row * col).reduce_sum();
                assert(value == dot4(row@, col@));
                output.set(row_idx, col_idx, value);
                col_idx += 1;
            }
            row_idx += 1;
        }
        assert(output.0 =~= product_matrix(self, rhs).0);
        output
    }
}

impl<T: Scalar> MulSpecImpl<Vert4<T>> for Matr4<T> {
    open spec fn obeys_mul_spec() -> bool {
        true
    }

    open spec fn mul_req(self, rhs: Vert4<T>) -> bool {
        specified::<T>() && applied4_defined(self@, rhs@)
    }

    open spec fn mul_spec(self, rhs: Vert4<T>) -> Vert4<T> {
        applied_vertex(self, rhs)
    }
}

/// The matrix applied to the vertex as a column.
impl<T: Scalar> core::ops::Mul<Vert4<T>> for Matr4<T> {
    type Output = Vert4<T>;

    fn mul(self, rhs: Vert4<T>) -> (out: Vert4<T>) {
        let mut output: Vert4<T> = Vert4::zero();
        let rows = self.as_row_vectors();
        let mut idx: usize = 0;
        while idx < 4
            invariant
                specified::<T>(),
                applied4_defined(self@, rhs@),
                idx <= 4,
                output@.len() == 4,
                forall|r: int| 0 <= r < 4 ==> (#[trigger] rows@[r])@ =~= row_of(self@, 4, r),
                forall|i: int|
                    0 <= i < idx ==> #[trigger] output@[i] == dot4(row_of(self@, 4, i), rhs@),
            decreases 4 - idx,
        {
            let row = rows[idx];
            assert(dot4_defined(row_of(self@, 4, idx as int), rhs@));
            let value = (row * rhs).reduce_sum();
            assert(value == dot4(row@, rhs@));
            output.set(idx, value);
            idx += 1;
        }
        assert(output.0 =~= applied_vertex(self, rhs).0);
        output
    }
}

} // verus!
