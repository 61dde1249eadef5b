//! The inverse of a matrix: the cofactors, transposed, over the determinant.

use crate::determinant::{
    cofactor3, cofactor3_defined, cofactor4, cofactor4_defined, det3, det3_defined, det4,
    det4_defined,
};
use crate::matrix::{Matr3, Matr4};
use crate::scalar::{num, specified, Scalar};
use vstd::prelude::*;
use vstd::std_specs::cmp::PartialEqSpec;
use vstd::std_specs::ops::DivSpec;

verus! {

/// The inverse of the three-row matrix `m`: the scalar of row `r` and column
/// `c` is the cofactor of row `c` and column `r` of `m`, divided by the
/// determinant of `m`.
pub open spec fn inverse3<T: Scalar>(m: Seq<T>) -> Seq<T> {
    Seq::new(9, |i: int| cofactor3(m, i % 3, i / 3).div_spec(det3(m)))
}

/// The cofactor of row `r` and column `c` of `m` and its division by the
/// determinant are permitted.
pub open spec fn inverse3_cell_defined<T: Scalar>(m: Seq<T>, r: int, c: int) -> bool {
    &&& cofactor3_defined(m, r, c)
    &&& cofactor3(m, r, c).div_req(det3(m))
}

/// What `inverse3_cell_defined` says, for every column of row `r`.
pub open spec fn inverse3_row_defined<T: Scalar>(m: Seq<T>, r: int) -> bool {
    &&& inverse3_cell_defined(m, r, 0)
    &&& inverse3_cell_defined(m, r, 1)
    &&& inverse3_cell_defined(m, r, 2)
}

/// The operations of the determinant of `m` are permitted and, where it
/// differs from zero, so are those of every cofactor and its division by the
/// determinant.
pub open spec fn inverse3_defined<T: Scalar>(m: Seq<T>) -> bool {
    &&& det3_defined(m)
    &&& !det3(m).eq_spec(&num::<T>(0)) ==> {
        &&& inverse3_row_defined(m, 0)
        &&& inverse3_row_defined(m, 1)
        &&& inverse3_row_defined(m, 2)
    }
}

/// The inverse of the four-row matrix `m`: the scalar of row `r` and column
/// `c` is the cofactor of row `c` and column `r` of `m`, divided by the
/// determinant of `m`.
pub open spec fn inverse4<T: Scalar>(m: Seq<T>) -> Seq<T> {
    Seq::new(16, |i: int| cofactor4(m, i % 4, i / 4).div_spec(det4(m)))
}

/// The cofactor of row `r` and column `c` of `m` and its division by the
/// determinant are permitted.
pub open spec fn inverse4_cell_defined<T: Scalar>(m: Seq<T>, r: int, c: int) -> bool {
    &&& cofactor4_defined(m, r, c)
    &&& cofactor4(m, r, c).div_req(det4(m))
}

/// What `inverse4_cell_defined` says, for every column of row `r`.
pub open spec fn inverse4_row_defined<T: Scalar>(m: Seq<T>, r: int) -> bool {
    &&& inverse4_cell_defined(m, r, 0)
    &&& inverse4_cell_defined(m, r, 1)
    &&& inverse4_cell_defined(m, r, 2)
    &&& inverse4_cell_defined(m, r, 3)
}

/// The operations of the determinant of `m` are permitted and, where it
/// differs from zero, so are those of every cofactor and its division by the
/// determinant.
pub open spec fn inverse4_defined<T: Scalar>(m: Seq<T>) -> bool {
    &&& det4_defined(m)
    &&& !det4(m).eq_spec(&num::<T>(0)) ==> {
        &&& inverse4_row_defined(m, 0)
        &&& inverse4_row_defined(m, 1)
        &&& inverse4_row_defined(m, 2)
        &&& inverse4_row_defined(m, 3)
    }
}

impl<T: Scalar> Matr3<T> {
    /// The inverse, or `None` where the determinant equals zero.
    pub fn inverse(&self) -> (r: Option<Matr3<T>>)
        requires
            specified::<T>(),
            inverse3_defined(self@),
        ensures
            r.is_some() == !det3(self@).eq_spec(&num::<T>(0)),
            r.is_some() ==> r.unwrap()@ =~= inverse3(self@),
    {
        let det = self.determinant();
        let zero: T = T::from(0i8);
        if !(det == zero) {
            let mut out_arr: [T; 9] = [zero;9];
            let mut row: usize = 0;
            while row < 3
                invariant
                    specified::<T>(),
                    inverse3_defined(self@),
                    row <= 3,
                    det == det3(self@),
                    !det.eq_spec(&num::<T>(0)),
                    forall|r: int, c: int|
                        0 <= r < row && 0 <= c < 3 ==> out_arr@[r + c * 3] == (
                        #[trigger] cofactor3(self@, r, c)).div_spec(det),
                decreases 3 - row,
            {
                let mut col: usize = 0;
                while col < 3
                    invariant
                        specified::<T>(),
                        inverse3_defined(self@),
                        row < 3,
                        col <= 3,
                        det == det3(self@),
                        !det.eq_spec(&num::<T>(0)),
                        forall|r: int, c: int|
                            0 <= r < row && 0 <= c < 3 ==> out_arr@[r + c * 3] == (
                            #[trigger] cofactor3(self@, r, c)).div_spec(det),
                        forall|c: int|
                            0 <= c < col ==> out_arr@[row + c * 3] == (#[trigger] cofactor3(
                                self@,
                                row as int,
                                c,
                            )).div_spec(det),
                    decreases 3 - col,
                {
                    assert(inverse3_row_defined(self@, row as int));
                    assert(inverse3_cell_defined(self@, row as int, col as int));
                    // The cofactor of (row, col) lands in row `col`, column `row`.
                    out_arr[row + (col * 3)] = self.cofactor(row, col) / det;
                    col += 1;
                }
                row += 1;
            }
            let out = Matr3(out_arr);
            assert forall|i: int| 0 <= i < 9 implies out@[i] == inverse3(self@)[i] by {
                let r = i % 3;
                let c = i / 3;
                assert(out_arr@[r + c * 3] == cofactor3(self@, r, c).div_spec(det));
            }
            Some(out)
        } else {
            None
        }
    }
}

impl<T: Scalar> Matr4<T> {
    /// The inverse, or `None` where the determinant equals zero.
    pub fn inverse(&self) -> (r: Option<Matr4<T>>)
        requires
            specified::<T>(),
            inverse4_defined(self@),
        ensures
            r.is_some() == !det4(self@).eq_spec(&num::<T>(0)),
            r.is_some() ==> r.unwrap()@ =~= inverse4(self@),
    {
        let det = self.determinant();
        let zero: T = T::from(0i8);
        if !(det == zero) {
            let mut out_arr: [T; 16] = [zero;16];
            let mut row: usize = 0;
            while row < 4
                invariant
                    specified::<T>(),
                    inverse4_defined(self@),
                    row <= 4,
                    det == det4(self@),
                    !det.eq_spec(&num::<T>(0)),
                    forall|r: int, c: int|
                        0 <= r < row && 0 <= c < 4 ==> out_arr@[r + c * 4] == (
                        #[trigger] cofactor4(self@, r, c)).div_spec(det),
                decreases 4 - row,
            {
                let mut col: usize = 0;
                while col < 4
                    invariant
                        specified::<T>(),
                        inverse4_defined(self@),
                        row < 4,
                        col <= 4,
                        det == det4(self@),
                        !det.eq_spec(&num::<T>(0)),
                        forall|r: int, c: int|
                            0 <= r < row && 0 <= c < 4 ==> out_arr@[r + c * 4] == (
                            #[trigger] cofactor4(self@, r, c)).div_spec(det),
                        forall|c: int|
                            0 <= c < col ==> out_arr@[row + c * 4] == (#[trigger] cofactor4(
                                self@,
                                row as int,
                                c,
                            )).div_spec(det),
                    decreases 4 - col,
                {
                    assert(inverse4_row_defined(self@, row as int));
                    assert(inverse4_cell_defined(self@, row as int, col as int));
                    // The cofactor of (row, col) lands in row `col`, column `row`.
                    out_arr[row + (col * 4)] = self.cofactor(row, col) / det;
                    col += 1;
                }
                row += 1;
            }
            let out = Matr4(out_arr);
            assert forall|i: int| 0 <= i < 16 implies out@[i] == inverse4(self@)[i] by {
                let r = i % 4;
                let c = i / 4;
                assert(out_arr@[r + c * 4] == cofactor4(self@, r, c).div_spec(det));
            }
            Some(out)
        } else {
            None
        }
    }
}

} // verus!
