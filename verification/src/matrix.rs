//! Square matrices of two, three and four rows, stored row by row.
//!
//! The view of a matrix is the sequence of its scalars in row-major order:
//! the scalar of row `r` and column `c` of an `n`-row matrix stands at
//! `r * n + c`.

use crate::scalar::{
    all_close, all_close_defined, float_array_almost_eq, num, specified, Scalar, SortaEq,
};
use crate::vertex::{Vert2, Vert3, Vert4};
use vstd::prelude::*;

verus! {

/// The identity of `n` rows: one on the diagonal, zero elsewhere.
pub open spec fn identity_seq<T: Scalar>(n: int) -> Seq<T> {
    Seq::new(
        (n * n) as nat,
        |i: int|
            if i / n == i % n {
                num::<T>(1)
            } else {
                num::<T>(0)
            },
    )
}

/// The transpose of the `n`-row matrix `m`: its scalar of row `r` and column
/// `c` is the scalar of row `c` and column `r` of `m`.
pub open spec fn transposed<T>(m: Seq<T>, n: int) -> Seq<T> {
    Seq::new((n * n) as nat, |i: int| m[(i % n) * n + i / n])
}

/// Row `r` of the `n`-row matrix `m`.
pub open spec fn row_of<T>(m: Seq<T>, n: int, r: int) -> Seq<T> {
    Seq::new(n as nat, |c: int| m[r * n + c])
}

/// Column `c` of the `n`-row matrix `m`.
pub open spec fn column_of<T>(m: Seq<T>, n: int, c: int) -> Seq<T> {
    Seq::new(n as nat, |r: int| m[r * n + c])
}

/// A matrix of two rows.
#[derive(Clone, Copy, Debug)]
pub struct Matr2<T>(pub [T; 4]);

/// A matrix of three rows.
#[derive(Clone, Copy, Debug)]
pub struct Matr3<T>(pub [T; 9]);

/// A matrix of four rows. An affine transform is such a matrix.
#[derive(Clone, Copy, Debug)]
pub struct Matr4<T>(pub [T; 16]);

pub type Mat2<T> = Matr2<T>;

pub type Mat3<T> = Matr3<T>;

pub type Mat4<T> = Matr4<T>;

impl<T: Scalar> View for Matr2<T> {
    type V = Seq<T>;

    open spec fn view(&self) -> Seq<T> {
        self.0@
    }
}

impl<T: Scalar> View for Matr3<T> {
    type V = Seq<T>;

    open spec fn view(&self) -> Seq<T> {
        self.0@
    }
}

impl<T: Scalar> View for Matr4<T> {
    type V = Seq<T>;

    open spec fn view(&self) -> Seq<T> {
        self.0@
    }
}

impl<T: Scalar> Matr2<T> {
    /// The scalar of row `r` and column `c`.
    pub open spec fn at(&self, r: int, c: int) -> T {
        self@[r * 2 + c]
    }

    /// The matrix whose scalars are those of `array`, row by row.
    pub fn new(array: [T; 4]) -> (m: Self)
        ensures
            m@ == array@,
    {
        Matr2(array)
    }

    /// The matrix whose scalars are those of `array`, row by row.
    pub fn from_array(array: [T; 4]) -> (m: Self)
        ensures
            m@ == array@,
    {
        Matr2(array)
    }

    /// The matrix made of the first four scalars of `slice`.
    pub fn from_slice(slice: &[T]) -> (m: Self)
        requires
            slice@.len() >= 4,
        ensures
            m@ =~= slice@.subrange(0, 4),
    {
        Matr2([slice[0], slice[1], slice[2], slice[3]])
    }

    /// The scalars, row by row.
    pub fn as_array(&self) -> (a: &[T; 4])
        ensures
            a@ == self@,
    {
        &self.0
    }

    pub fn identity() -> (m: Self)
        requires
            specified::<T>(),
        ensures
            m@ =~= identity_seq::<T>(2),
    {
        let o: T = T::from(1i8);
        let z: T = T::from(0i8);
        Matr2([o, z, z, o])
    }

    pub fn transpose(&self) -> (t: Self)
        ensures
            t@ =~= transposed(self@, 2),
    {
        let a = &self.0;
        Matr2([a[0], a[2], a[1], a[3]])
    }

    /// The scalar of row `row` and column `col`.
    pub fn get(&self, row: usize, col: usize) -> (v: T)
        requires
            row < 2,
            col < 2,
        ensures
            v == self.at(row as int, col as int),
    {
        self.0[col + 2 * row]
    }

    /// The scalar at `index` of the row-major storage.
    pub fn const_index(&self, index: usize) -> (v: T)
        requires
            index < 4,
        ensures
            v == self@[index as int],
    {
        self.0[index]
    }

    /// The two rows, first row first.
    pub fn as_row_vectors(&self) -> (rows: [Vert2<T>; 2])
        ensures
            forall|r: int| 0 <= r < 2 ==> (#[trigger] rows@[r])@ =~= row_of(self@, 2, r),
    {
        let a = &self.0;
        [Vert2([a[0], a[1]]), Vert2([a[2], a[3]])]
    }

    /// The two columns, first column first.
    pub fn as_column_vectors(&self) -> (cols: [Vert2<T>; 2])
        ensures
            forall|c: int| 0 <= c < 2 ==> (#[trigger] cols@[c])@ =~= column_of(self@, 2, c),
    {
        let a = &self.0;
        [Vert2([a[0], a[2]]), Vert2([a[1], a[3]])]
    }
}

impl<T: Scalar> SortaEq for Matr2<T> {
    open spec fn comparable(&self, rhs: &Self) -> bool {
        specified::<T>() && all_close_defined(self@, rhs@)
    }

    open spec fn sorta_eq(&self, rhs: &Self) -> bool {
        all_close(self@, rhs@)
    }

    fn ehh_maybe(&self, rhs: &Self) -> (r: bool) {
        float_array_almost_eq(&self.0, &rhs.0)
    }
}

impl<T: Scalar> Matr3<T> {
    /// The scalar of row `r` and column `c`.
    pub open spec fn at(&self, r: int, c: int) -> T {
        self@[r * 3 + c]
    }

    /// The matrix whose scalars are those of `array`, row by row.
    pub fn new(array: [T; 9]) -> (m: Self)
        ensures
            m@ == array@,
    {
        Matr3(array)
    }

    /// The matrix whose scalars are those of `array`, row by row.
    pub fn from_array(array: [T; 9]) -> (m: Self)
        ensures
            m@ == array@,
    {
        Matr3(array)
    }

    /// The matrix whose rows are the three vertices of `rows`.
    pub fn from_rows(rows: [Vert3<T>; 3]) -> (m: Self)
        ensures
            m@.len() == 9,
            forall|r: int, c: int|
                0 <= r < 3 && 0 <= c < 3 ==> #[trigger] m.at(r, c) == rows@[r]@[c],
    {
        let mut out: [T; 9] = [rows[0].0[0];9];
        let mut idx: usize = 0;
        while idx < 9
            invariant
                idx <= 9,
                forall|k: int| 0 <= k < idx ==> #[trigger] out@[k] == rows@[k / 3]@[k % 3],
            decreases 9 - idx,
        {
            let src: usize = if idx < 3 {
                0
            } else if idx < 6 {
                1
            } else {
                2
            };
            out[idx] = rows[src].0[idx % 3];
            idx += 1;
        }
        let m = Matr3(out);
        assert forall|r: int, c: int| 0 <= r < 3 && 0 <= c < 3 implies #[trigger] m.at(r, c)
            == rows@[r]@[c] by {
            assert(out@[r * 3 + c] == rows@[(r * 3 + c) / 3]@[(r * 3 + c) % 3]);
        }
        m
    }

    /// The matrix made of the first nine scalars of `slice`.
    pub fn from_slice(slice: &[T]) -> (m: Self)
        requires
            slice@.len() >= 9,
        ensures
            m@ =~= slice@.subrange(0, 9),
    {
        Matr3(
            [
                slice[0],
                slice[1],
                slice[2],
                slice[3],
                slice[4],
                slice[5],
                slice[6],
                slice[7],
                slice[8],
            ],
        )
    }

    /// The scalars, row by row.
    pub fn as_array(&self) -> (a: &[T; 9])
        ensures
            a@ == self@,
    {
        &self.0
    }

    pub fn identity() -> (m: Self)
        requires
            specified::<T>(),
        ensures
            m@ =~= identity_seq::<T>(3),
    {
        let o: T = T::from(1i8);
        let z: T = T::from(0i8);
        Matr3([o, z, z, z, o, z, z, z, o])
    }

    pub fn transpose(&self) -> (t: Self)
        ensures
            t@ =~= transposed(self@, 3),
    {
        Matr3(
            [
                self.get(0, 0),
                self.get(1, 0),
                self.get(2, 0),
                self.get(0, 1),
                self.get(1, 1),
                self.get(2, 1),
                self.get(0, 2),
                self.get(1, 2),
                self.get(2, 2),
            ],
        )
    }

    /// The scalar of row `row` and column `col`.
    pub fn get(&self, row: usize, col: usize) -> (v: T)
        requires
            row < 3,
            col < 3,
        ensures
            v == self.at(row as int, col as int),
    {
        self.0[col + 3 * row]
    }

    /// The scalar at `index` of the row-major storage.
    pub fn const_index(&self, index: usize) -> (v: T)
        requires
            index < 9,
        ensures
            v == self@[index as int],
    {
        self.0[index]
    }

    /// The three rows, first row first.
    pub fn as_row_vectors(&self) -> (rows: [Vert3<T>; 3])
        ensures
            forall|r: int| 0 <= r < 3 ==> (#[trigger] rows@[r])@ =~= row_of(self@, 3, r),
    {
        let a = &self.0;
        [Vert3([a[0], a[1], a[2]]), Vert3([a[3], a[4], a[5]]), Vert3([a[6], a[7], a[8]])]
    }

    /// The three columns, first column first.
    pub fn as_column_vectors(&self) -> (cols: [Vert3<T>; 3])
        ensures
            forall|c: int| 0 <= c < 3 ==> (#[trigger] cols@[c])@ =~= column_of(self@, 3, c),
    {
        let a = &self.0;
        [Vert3([a[0], a[3], a[6]]), Vert3([a[1], a[4], a[7]]), Vert3([a[2], a[5], a[8]])]
    }
}

impl<T: Scalar> SortaEq for Matr3<T> {
    open spec fn comparable(&self, rhs: &Self) -> bool {
        specified::<T>() && all_close_defined(self@, rhs@)
    }

    open spec fn sorta_eq(&self, rhs: &Self) -> bool {
        all_close(self@, rhs@)
    }

    fn ehh_maybe(&self, rhs: &Self) -> (r: bool) {
        float_array_almost_eq(&self.0, &rhs.0)
    }
}

impl<T: Scalar> Matr4<T> {
    /// The scalar of row `r` and column `c`.
    pub open spec fn at(&self, r: int, c: int) -> T {
        self@[r * 4 + c]
    }

    /// The matrix whose scalars are those of `array`, row by row.
    pub fn new(array: [T; 16]) -> (m: Self)
        ensures
            m@ == array@,
    {
        Matr4(array)
    }

    /// The matrix whose scalars are those of `array`, row by row.
    pub fn from_array(array: [T; 16]) -> (m: Self)
        ensures
            m@ == array@,
    {
        Matr4(array)
    }

    /// The matrix made of the first sixteen scalars of `slice`.
    pub fn from_slice(slice: &[T]) -> (m: Self)
        requires
            slice@.len() >= 16,
        ensures
            m@ =~= slice@.subrange(0, 16),
    {
        let mut out: [T; 16] = [slice[0];16];
        let mut idx: usize = 0;
        while idx < 16
            invariant
                idx <= 16,
                slice@.len() >= 16,
                forall|k: int| 0 <= k < idx ==> #[trigger] out@[k] == slice@[k],
            decreases 16 - idx,
        {
            out[idx] = slice[idx];
            idx += 1;
        }
        Matr4(out)
    }

    /// The scalars, row by row.
    pub fn as_array(&self) -> (a: &[T; 16])
        ensures
            a@ == self@,
    {
        &self.0
    }

    pub fn identity() -> (m: Self)
        requires
            specified::<T>(),
        ensures
            m@ =~= identity_seq::<T>(4),
    {
        let o: T = T::from(1i8);
        let z: T = T::from(0i8);
        Matr4([o, z, z, z, z, o, z, z, z, z, o, z, z, z, z, o])
    }

    pub fn transpose(&self) -> (t: Self)
        ensures
            t@ =~= transposed(self@, 4),
    {
        let a = &self.0;
        Matr4(
            [
                a[0],
                a[4],
                a[8],
                a[12],
                a[1],
                a[5],
                a[9],
                a[13],
                a[2],
                a[6],
                a[10],
                a[14],
                a[3],
                a[7],
                a[11],
                a[15],
            ],
        )
    }

    /// The scalar of row `row` and column `col`.
    pub fn get(&self, row: usize, col: usize) -> (v: T)
        requires
            row < 4,
            col < 4,
        ensures
            v == self.at(row as int, col as int),
    {
        self.0[col + 4 * row]
    }

    /// Replaces the scalar of row `row` and column `col`.
    pub fn set(&mut self, row: usize, col: usize, value: T)
        requires
            row < 4,
            col < 4,
        ensures
            final(self)@ =~= old(self)@.update(row * 4 + col, value),
    {
        self.0[col + 4 * row] = value;
    }

    /// The scalar at `index` of the row-major storage.
    pub fn const_index(&self, index: usize) -> (v: T)
        requires
            index < 16,
        ensures
            v == self@[index as int],
    {
        self.0[index]
    }

    /// The four rows, first row first.
    pub fn as_row_vectors(&self) -> (rows: [Vert4<T>; 4])
        ensures
            forall|r: int| 0 <= r < 4 ==> (#[trigger] rows@[r])@ =~= row_of(self@, 4, r),
    {
        let a = &self.0;
        [
            Vert4([a[0], a[1], a[2], a[3]]),
            Vert4([a[4], a[5], a[6], a[7]]),
            Vert4([a[8], a[9], a[10], a[11]]),
            Vert4([a[12], a[13], a[14], a[15]]),
        ]
    }

    /// The four columns, first column first: the rows of the transpose.
    pub fn as_column_vectors(&self) -> (cols: [Vert4<T>; 4])
        ensures
            forall|c: int| 0 <= c < 4 ==> (#[trigger] cols@[c])@ =~= column_of(self@, 4, c),
    {
        self.transpose().as_row_vectors()
    }
}

impl<T: Scalar> SortaEq for Matr4<T> {
    open spec fn comparable(&self, rhs: &Self) -> bool {
        specified::<T>() && all_close_defined(self@, rhs@)
    }

    open spec fn sorta_eq(&self, rhs: &Self) -> bool {
        all_close(self@, rhs@)
    }

    fn ehh_maybe(&self, rhs: &Self) -> (r: bool) {
        float_array_almost_eq(&self.0, &rhs.0)
    }
}

} // verus!
