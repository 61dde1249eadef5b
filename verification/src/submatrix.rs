//! Deleting one row and one column of a square matrix.

use crate::matrix::{Matr2, Matr3, Matr4};
use crate::scalar::Scalar;
use vstd::arithmetic::div_mod::lemma_fundamental_div_mod_converse;
use vstd::prelude::*;

verus! {

/// The index in the full matrix of row or column `i` of the submatrix: the
/// indices below `omitted` stay, the others move up by one.
pub open spec fn skip(i: int, omitted: int) -> int {
    if i < omitted {
        i
    } else {
        i + 1
    }
}

/// How many of the indices below `i` are kept when `omitted` is deleted.
pub open spec fn kept(i: int, omitted: int) -> int {
    if i <= omitted {
        i
    } else {
        i - 1
    }
}

/// Where scalar `i` of the submatrix stands in the `n`-row matrix that row
/// `row` and column `col` were deleted from.
pub open spec fn source_of(i: int, n: int, row: int, col: int) -> int {
    skip(i / (n - 1), row) * n + skip(i % (n - 1), col)
}

/// The `n`-row matrix `m` without row `row` and column `col`: the remaining
/// scalars in their order, as a matrix of `n - 1` rows.
pub open spec fn submatrix_of<T>(m: Seq<T>, n: int, row: int, col: int) -> Seq<T> {
    Seq::new(((n - 1) * (n - 1)) as nat, |i: int| m[source_of(i, n, row, col)])
}

/// The first `count` scalars of `out` are those of the submatrix of `m`.
pub open spec fn gathered<T>(
    out: Seq<T>,
    m: Seq<T>,
    count: int,
    n: int,
    row: int,
    col: int,
) -> bool {
    forall|k: int| 0 <= k < count ==> #[trigger] out[k] == m[source_of(k, n, row, col)]
}

/// The three-row matrix `in_matrix` without row `omitted_row` and column
/// `omitted_col`.
pub fn submatrix_3<T: Scalar>(
    in_matrix: &Matr3<T>,
    omitted_row: usize,
    omitted_col: usize,
) -> (out: Matr2<T>)
    requires
        omitted_row < 3,
        omitted_col < 3,
    ensures
        out@ =~= submatrix_of(in_matrix@, 3, omitted_row as int, omitted_col as int),
{
    let ghost row_gone = omitted_row as int;
    let ghost col_gone = omitted_col as int;
    let mut out_array: [T; 4] = [in_matrix.0[0];4];
    // Where the next scalar goes.
    let mut array_index: usize = 0;
    let mut row: usize = 0;
    while row < 3
        invariant
            row <= 3,
            row_gone == omitted_row < 3,
            col_gone == omitted_col < 3,
            array_index == 2 * kept(row as int, row_gone),
            gathered(out_array@, in_matrix@, array_index as int, 3, row_gone, col_gone),
        decreases 3 - row,
    {
        if row == omitted_row {
            row += 1;
            continue ;
        }
        let mut col: usize = 0;
        while col < 3
            invariant
                col <= 3,
                row < 3,
                row != omitted_row,
                row_gone == omitted_row < 3,
                col_gone == omitted_col < 3,
                array_index == 2 * kept(row as int, row_gone) + kept(col as int, col_gone),
                gathered(out_array@, in_matrix@, array_index as int, 3, row_gone, col_gone),
            decreases 3 - col,
        {
            if col == omitted_col {
                col += 1;
                continue ;
            }
            out_array[array_index] = in_matrix.get(row, col);
            array_index += 1;
            col += 1;
        }
        row += 1;
    }
    Matr2(out_array)
}

/// The four-row matrix `in_matrix` without row `omitted_row` and column
/// `omitted_col`.
pub fn submatrix_4<T: Scalar>(
    in_matrix: &Matr4<T>,
    omitted_row: usize,
    omitted_col: usize,
) -> (out: Matr3<T>)
    requires
        omitted_row < 4,
        omitted_col < 4,
    ensures
        out@ =~= submatrix_of(in_matrix@, 4, omitted_row as int, omitted_col as int),
{
    let ghost row_gone = omitted_row as int;
    let ghost col_gone = omitted_col as int;
    let mut out_array: [T; 9] = [in_matrix.0[0];9];
    // Where the next scalar goes.
    let mut array_index: usize = 0;
    let mut row: usize = 0;
    while row < 4
        invariant
            row <= 4,
            row_gone == omitted_row < 4,
            col_gone == omitted_col < 4,
            array_index == 3 * kept(row as int, row_gone),
            gathered(out_array@, in_matrix@, array_index as int, 4, row_gone, col_gone),
        decreases 4 - row,
    {
        if row == omitted_row {
            row += 1;
            continue ;
        }
        let mut col: usize = 0;
        while col < 4
            invariant
                col <= 4,
                row < 4,
                row != omitted_row,
                row_gone == omitted_row < 4,
                col_gone == omitted_col < 4,
                array_index == 3 * kept(row as int, row_gone) + kept(col as int, col_gone),
                gathered(out_array@, in_matrix@, array_index as int, 4, row_gone, col_gone),
            decreases 4 - col,
        {
            if col == omitted_col {
                col += 1;
                continue ;
            }
            out_array[array_index] = in_matrix.get(row, col);
            array_index += 1;
            col += 1;
        }
        row += 1;
    }
    Matr3(out_array)
}

/// The matrix of `N` rows held in `in_array` without row `omitted_row` and
/// column `omitted_col`. `NN` is the number of scalars of the matrix and `NS`
/// that of the result.
pub fn array_submatrix<T: Copy, const N: usize, const NN: usize, const NS: usize>(
    in_array: [T; NN],
    omitted_row: usize,
    omitted_col: usize,
) -> (out: [T; NS])
    requires
        1 <= N,
        NN == N * N,
        NS == (N - 1) * (N - 1),
        omitted_row < N,
        omitted_col < N,
    ensures
        out@ =~= submatrix_of(in_array@, N as int, omitted_row as int, omitted_col as int),
{
    let ghost n = N as int;
    let ghost d = N - 1;
    let ghost row_gone = omitted_row as int;
    let ghost col_gone = omitted_col as int;
    assert(NN >= 1) by (nonlinear_arith)
        requires
            NN == N * N,
            1 <= N,
    ;
    assert(d * 0 == 0) by (nonlinear_arith);
    let mut array: [T; NS] = [in_array[0];NS];
    // Where the next scalar goes.
    let mut array_index: usize = 0;
    let mut row: usize = 0;
    while row < N
        invariant
            row <= N,
            1 <= N,
            n == N,
            d == N - 1,
            NN == N * N,
            NS == d * d,
            row_gone == omitted_row < N,
            col_gone == omitted_col < N,
            array_index == d * kept(row as int, row_gone),
            gathered(array@, in_array@, array_index as int, n, row_gone, col_gone),
        decreases N - row,
    {
        if row == omitted_row {
            row += 1;
            continue ;
        }
        assert(row * N + N <= N * N) by (nonlinear_arith)
            requires
                row < N,
        ;
        let row_offset: usize = row * N;
        let mut col: usize = 0;
        while col < N
            invariant
                col <= N,
                row < N,
                row != omitted_row,
                1 <= N,
                n == N,
                d == N - 1,
                NN == N * N,
                NS == d * d,
                row_gone == omitted_row < N,
                col_gone == omitted_col < N,
                row_offset == row * N,
                row_offset + N <= NN,
                array_index == d * kept(row as int, row_gone) + kept(col as int, col_gone),
                gathered(array@, in_array@, array_index as int, n, row_gone, col_gone),
            decreases N - col,
        {
            if col == omitted_col {
                col += 1;
                continue ;
            }
            let src: usize = row_offset + col;
            proof {
                // The scalar goes to row `q` and column `r` of the submatrix.
                let q = kept(row as int, row_gone);
                let r = kept(col as int, col_gone);
                assert(0 <= q <= d - 1);
                assert(0 <= r <= d - 1);
                assert(d * q + r < d * d) by (nonlinear_arith)
                    requires
                        0 <= q <= d - 1,
                        0 <= r <= d - 1,
                ;
                assert(array_index as int == q * d + r) by (nonlinear_arith)
                    requires
                        array_index as int == d * q + r,
                ;
                lemma_fundamental_div_mod_converse(array_index as int, d, q, r);
            }
            array[array_index] = in_array[src];
            array_index += 1;
            col += 1;
        }
        proof {
            let q = kept(row as int, row_gone);
            assert(d * q + d == d * (q + 1)) by (nonlinear_arith);
        }
        row += 1;
    }
    array
}

impl<T: Scalar> Matr3<T> {
    /// The matrix without row `omitted_row` and column `omitted_col`.
    pub fn submatrix(&self, omitted_row: usize, omitted_col: usize) -> (out: Matr2<T>)
        requires
            omitted_row < 3,
            omitted_col < 3,
        ensures
            out@ =~= submatrix_of(self@, 3, omitted_row as int, omitted_col as int),
    {
        submatrix_3(self, omitted_row, omitted_col)
    }

    /// The matrix without row `omitted_row` and column `omitted_col`, gathered
    /// by one pass over the rows and columns that stay.
    pub fn submat(&self, omitted_row: usize, omitted_col: usize) -> (out: Matr2<T>)
        requires
            omitted_row < 3,
            omitted_col < 3,
        ensures
            out@ =~= submatrix_of(self@, 3, omitted_row as int, omitted_col as int),
    {
        let ghost row_gone = omitted_row as int;
        let ghost col_gone = omitted_col as int;
        let mut array: [T; 4] = [self.0[0];4];
        let mut i: usize = 0;
        for row in 0..3usize
            invariant
                row_gone == omitted_row < 3,
                col_gone == omitted_col < 3,
                i == 2 * kept(row as int, row_gone),
                gathered(array@, self@, i as int, 3, row_gone, col_gone),
        {
            if row != omitted_row {
                for col in 0..3usize
                    invariant
                        row < 3,
                        row != omitted_row,
                        row_gone == omitted_row < 3,
                        col_gone == omitted_col < 3,
                        i == 2 * kept(row as int, row_gone) + kept(col as int, col_gone),
                        gathered(array@, self@, i as int, 3, row_gone, col_gone),
                {
                    if col != omitted_col {
                        array[i] = self.get(row, col);
                        i += 1;
                    }
                }
            }
        }
        Matr2(array)
    }
}

impl<T: Scalar> Matr4<T> {
    /// The matrix without row `omitted_row` and column `omitted_col`.
    pub fn submatrix(&self, omitted_row: usize, omitted_col: usize) -> (out: Matr3<T>)
        requires
            omitted_row < 4,
            omitted_col < 4,
        ensures
            out@ =~= submatrix_of(self@, 4, omitted_row as int, omitted_col as int),
    {
        submatrix_4(self, omitted_row, omitted_col)
    }

    /// The matrix without row `omitted_row` and column `omitted_col`, gathered
    /// by one pass over the rows and columns that stay.
    pub fn submat(&self, omitted_row: usize, omitted_col: usize) -> (out: Matr3<T>)
        requires
            omitted_row < 4,
            omitted_col < 4,
        ensures
            out@ =~= submatrix_of(self@, 4, omitted_row as int, omitted_col as int),
    {
        let ghost row_gone = omitted_row as int;
        let ghost col_gone = omitted_col as int;
        let mut array: [T; 9] = [self.0[0];9];
        let mut i: usize = 0;
        for row in 0..4usize
            invariant
                row_gone == omitted_row < 4,
                col_gone == omitted_col < 4,
                i == 3 * kept(row as int, row_gone),
                gathered(array@, self@, i as int, 4, row_gone, col_gone),
        {
            if row != omitted_row {
                for col in 0..4usize
                    invariant
                        row < 4,
                        row != omitted_row,
                        row_gone == omitted_row < 4,
                        col_gone == omitted_col < 4,
                        i == 3 * kept(row as int, row_gone) + kept(col as int, col_gone),
                        gathered(array@, self@, i as int, 4, row_gone, col_gone),
                {
                    if col != omitted_col {
                        array[i] = self.get(row, col);
                        i += 1;
                    }
                }
            }
        }
        Matr3(array)
    }
}

} // verus!
