//! Determinant, minor and cofactor.
//!
//! The determinant of two rows is the closed form `a * d - b * c`. Those of
//! three and four rows are the cofactor expansion along the first row, summed
//! from the left, starting from zero.

use crate::matrix::{Matr2, Matr3, Matr4};
use crate::scalar::{num, specified, Scalar};
use crate::submatrix::{array_submatrix, submatrix_of};
use vstd::prelude::*;
use vstd::std_specs::cmp::PartialEqSpec;
use vstd::std_specs::ops::{AddSpec, MulSpec, NegSpec, SubSpec};

verus! {

/// The determinant of the two-row matrix `m`.
pub open spec fn det2<T: Scalar>(m: Seq<T>) -> T {
    m[0].mul_spec(m[3]).sub_spec(m[1].mul_spec(m[2]))
}

/// The two products and the subtraction of `det2(m)` are permitted.
pub open spec fn det2_defined<T: Scalar>(m: Seq<T>) -> bool {
    &&& m[0].mul_req(m[3])
    &&& m[1].mul_req(m[2])
    &&& m[0].mul_spec(m[3]).sub_req(m[1].mul_spec(m[2]))
}

/// `v` with the sign that belongs to row `row` and column `col`: negated
/// where `row + col` is odd.
pub open spec fn signed<T: Scalar>(v: T, row: int, col: int) -> T {
    if (row + col) % 2 != 0 {
        v.neg_spec()
    } else {
        v
    }
}

/// `v` may be negated where `row + col` is odd.
pub open spec fn signed_defined<T: Scalar>(v: T, row: int, col: int) -> bool {
    (row + col) % 2 != 0 ==> v.neg_req()
}

/// The determinant of the three-row matrix `m` without row `row` and column
/// `col`.
pub open spec fn minor3<T: Scalar>(m: Seq<T>, row: int, col: int) -> T {
    det2(submatrix_of(m, 3, row, col))
}

/// The operations of `minor3(m, row, col)` are permitted.
pub open spec fn minor3_defined<T: Scalar>(m: Seq<T>, row: int, col: int) -> bool {
    det2_defined(submatrix_of(m, 3, row, col))
}

/// The signed minor of the three-row matrix `m`.
pub open spec fn cofactor3<T: Scalar>(m: Seq<T>, row: int, col: int) -> T {
    signed(minor3(m, row, col), row, col)
}

/// The operations of `cofactor3(m, row, col)` are permitted.
pub open spec fn cofactor3_defined<T: Scalar>(m: Seq<T>, row: int, col: int) -> bool {
    &&& minor3_defined(m, row, col)
    &&& signed_defined(minor3(m, row, col), row, col)
}

/// The term of column `col` in the expansion of the three-row matrix `m`
/// along its first row: the scalar of that column times its cofactor.
pub open spec fn term3<T: Scalar>(m: Seq<T>, col: int) -> T {
    m[col].mul_spec(cofactor3(m, 0, col))
}

/// The operations of `term3(m, col)` are permitted.
pub open spec fn term3_defined<T: Scalar>(m: Seq<T>, col: int) -> bool {
    &&& cofactor3_defined(m, 0, col)
    &&& m[col].mul_req(cofactor3(m, 0, col))
}

/// The expansion of the three-row matrix `m` along its first row over the
/// first `cols` columns: zero plus the terms of these columns, added from
/// the left.
pub open spec fn expansion3<T: Scalar>(m: Seq<T>, cols: int) -> T {
    if cols <= 0 {
        num::<T>(0)
    } else if cols == 1 {
        num::<T>(0).add_spec(term3(m, 0))
    } else if cols == 2 {
        num::<T>(0).add_spec(term3(m, 0)).add_spec(term3(m, 1))
    } else {
        num::<T>(0)
            .add_spec(term3(m, 0))
            .add_spec(term3(m, 1))
            .add_spec(term3(m, 2))
    }
}

/// The determinant of the three-row matrix `m`: the expansion over all
/// three columns.
pub open spec fn det3<T: Scalar>(m: Seq<T>) -> T {
    expansion3(m, 3)
}

/// The operations of `det3(m)` are permitted.
pub open spec fn det3_defined<T: Scalar>(m: Seq<T>) -> bool {
    &&& term3_defined(m, 0)
    &&& expansion3(m, 0).add_req(term3(m, 0))
    &&& term3_defined(m, 1)
    &&& expansion3(m, 1).add_req(term3(m, 1))
    &&& term3_defined(m, 2)
    &&& expansion3(m, 2).add_req(term3(m, 2))
}

/// The determinant of the four-row matrix `m` without row `row` and column
/// `col`.
pub open spec fn minor4<T: Scalar>(m: Seq<T>, row: int, col: int) -> T {
    det3(submatrix_of(m, 4, row, col))
}

/// The operations of `minor4(m, row, col)` are permitted.
pub open spec fn minor4_defined<T: Scalar>(m: Seq<T>, row: int, col: int) -> bool {
    det3_defined(submatrix_of(m, 4, row, col))
}

/// The signed minor of the four-row matrix `m`.
pub open spec fn cofactor4<T: Scalar>(m: Seq<T>, row: int, col: int) -> T {
    signed(minor4(m, row, col), row, col)
}

/// The operations of `cofactor4(m, row, col)` are permitted.
pub open spec fn cofactor4_defined<T: Scalar>(m: Seq<T>, row: int, col: int) -> bool {
    &&& minor4_defined(m, row, col)
    &&& signed_defined(minor4(m, row, col), row, col)
}

/// The term of column `col` in the expansion of the four-row matrix `m`
/// along its first row: the scalar of that column times its cofactor.
pub open spec fn term4<T: Scalar>(m: Seq<T>, col: int) -> T {
    m[col].mul_spec(cofactor4(m, 0, col))
}

/// The operations of `term4(m, col)` are permitted.
pub open spec fn term4_defined<T: Scalar>(m: Seq<T>, col: int) -> bool {
    &&& cofactor4_defined(m, 0, col)
    &&& m[col].mul_req(cofactor4(m, 0, col))
}

/// The expansion of the four-row matrix `m` along its first row over the
/// first `cols` columns: zero plus the terms of these columns, added from
/// the left.
pub open spec fn expansion4<T: Scalar>(m: Seq<T>, cols: int) -> T {
    if cols <= 0 {
        num::<T>(0)
    } else if cols == 1 {
        num::<T>(0).add_spec(term4(m, 0))
    } else if cols == 2 {
        num::<T>(0).add_spec(term4(m, 0)).add_spec(term4(m, 1))
    } else if cols == 3 {
        num::<T>(0).add_spec(term4(m, 0)).add_spec(term4(m, 1)).add_spec(term4(m, 2))
    } else {
        num::<T>(0)
            .add_spec(term4(m, 0))
            .add_spec(term4(m, 1))
            .add_spec(term4(m, 2))
            .add_spec(term4(m, 3))
    }
}

/// The determinant of the four-row matrix `m`: the expansion over all
/// four columns.
pub open spec fn det4<T: Scalar>(m: Seq<T>) -> T {
    expansion4(m, 4)
}

/// The operations of `det4(m)` are permitted.
pub open spec fn det4_defined<T: Scalar>(m: Seq<T>) -> bool {
    &&& term4_defined(m, 0)
    &&& expansion4(m, 0).add_req(term4(m, 0))
    &&& term4_defined(m, 1)
    &&& expansion4(m, 1).add_req(term4(m, 1))
    &&& term4_defined(m, 2)
    &&& expansion4(m, 2).add_req(term4(m, 2))
    &&& term4_defined(m, 3)
    &&& expansion4(m, 3).add_req(term4(m, 3))
}

/// The determinant of the two-row matrix held in `array`.
pub fn determinant_2<T: Scalar>(array: &[T; 4]) -> (r: T)
    requires
        specified::<T>(),
        det2_defined(array@),
    ensures
        r == det2(array@),
{
    (array[0] * array[3]) - (array[1] * array[2])
}

/// The minor of the three-row matrix held in `array`.
pub fn array_minor<T: Scalar>(array: [T; 9], row: usize, col: usize) -> (r: T)
    requires
        specified::<T>(),
        row < 3,
        col < 3,
        minor3_defined(array@, row as int, col as int),
    ensures
        r == minor3(array@, row as int, col as int),
{
    let sub: [T; 4] = array_submatrix::<T, 3, 9, 4>(array, row, col);
    determinant_2(&sub)
}

/// The cofactor of the three-row matrix held in `array`.
pub fn array_cofactor<T: Scalar>(array: [T; 9], row: usize, col: usize) -> (r: T)
    requires
        specified::<T>(),
        row < 3,
        col < 3,
        cofactor3_defined(array@, row as int, col as int),
    ensures
        r == cofactor3(array@, row as int, col as int),
{
    if (row + col) % 2 != 0 {
        array_minor(array, row, col).neg()
    } else {
        array_minor(array, row, col)
    }
}

impl<T: Scalar> Matr2<T> {
    /// `a * d - b * c` for the matrix of the rows `a, b` and `c, d`.
    pub fn determinant(&self) -> (r: T)
        requires
            specified::<T>(),
            det2_defined(self@),
        ensures
            r == det2(self@),
    {
        (self.get(0, 0) * self.get(1, 1)) - (self.get(0, 1) * self.get(1, 0))
    }

    /// Whether the determinant differs from zero.
    pub fn is_invertible(&self) -> (r: bool)
        requires
            specified::<T>(),
            det2_defined(self@),
        ensures
            r == !det2(self@).eq_spec(&num::<T>(0)),
    {
        let zero: T = T::from(0i8);
        !(self.determinant() == zero)
    }
}

impl<T: Scalar> Matr3<T> {
    /// The determinant of the submatrix without row `row` and column `col`.
    pub fn minor(&self, row: usize, col: usize) -> (r: T)
        requires
            specified::<T>(),
            row < 3,
            col < 3,
            minor3_defined(self@, row as int, col as int),
        ensures
            r == minor3(self@, row as int, col as int),
    {
        let sm = self.submatrix(row, col);
        sm.determinant()
    }

    /// The minor, negated where `row + col` is odd.
    pub fn cofactor(&self, row: usize, col: usize) -> (r: T)
        requires
            specified::<T>(),
            row < 3,
            col < 3,
            cofactor3_defined(self@, row as int, col as int),
        ensures
            r == cofactor3(self@, row as int, col as int),
    {
        let minor = self.minor(row, col);
        if (row + col) % 2 != 0 {
            minor.neg()
        } else {
            minor
        }
    }

    /// The cofactor expansion along the first row.
    pub fn determinant(&self) -> (r: T)
        requires
            specified::<T>(),
            det3_defined(self@),
        ensures
            r == det3(self@),
    {
        let mut tally: T = T::from(0i8);
        let row: usize = 0;
        let mut col: usize = 0;
        while col < 3
            invariant
                specified::<T>(),
                det3_defined(self@),
                row == 0,
                col <= 3,
                tally == expansion3(self@, col as int),
            decreases 3 - col,
        {
            assert(term3_defined(self@, col as int));
            tally = tally + self.get(row, col) * self.cofactor(row, col);
            col += 1;
        }
        tally
    }

    /// Whether the determinant differs from zero.
    pub fn is_invertible(&self) -> (r: bool)
        requires
            specified::<T>(),
            det3_defined(self@),
        ensures
            r == !det3(self@).eq_spec(&num::<T>(0)),
    {
        let zero: T = T::from(0i8);
        !(self.determinant() == zero)
    }
}

impl<T: Scalar> Matr4<T> {
    /// The determinant of the submatrix without row `row` and column `col`.
    pub fn minor(&self, row: usize, col: usize) -> (r: T)
        requires
            specified::<T>(),
            row < 4,
            col < 4,
            minor4_defined(self@, row as int, col as int),
        ensures
            r == minor4(self@, row as int, col as int),
    {
        let sm = self.submatrix(row, col);
        sm.determinant()
    }

    /// The minor, negated where `row + col` is odd.
    pub fn cofactor(&self, row: usize, col: usize) -> (r: T)
        requires
            specified::<T>(),
            row < 4,
            col < 4,
            cofactor4_defined(self@, row as int, col as int),
        ensures
            r == cofactor4(self@, row as int, col as int),
    {
        let minor = self.minor(row, col);
        if (row + col) % 2 != 0 {
            minor.neg()
        } else {
            minor
        }
    }

    /// The cofactor expansion along the first row.
    pub fn determinant(&self) -> (r: T)
        requires
            specified::<T>(),
            det4_defined(self@),
        ensures
            r == det4(self@),
    {
        let mut tally: T = T::from(0i8);
        let row: usize = 0;
        for col in 0..4usize
            invariant
                specified::<T>(),
                det4_defined(self@),
                row == 0,
                tally == expansion4(self@, col as int),
        {
            assert(term4_defined(self@, col as int));
            tally = tally + self.get(row, col) * self.cofactor(row, col);
        }
        tally
    }

    /// Whether the determinant differs from zero.
    pub fn is_invertible(&self) -> (r: bool)
        requires
            specified::<T>(),
            det4_defined(self@),
        ensures
            r == !det4(self@).eq_spec(&num::<T>(0)),
    {
        let zero: T = T::from(0i8);
        !(self.determinant() == zero)
    }
}

} // verus!
