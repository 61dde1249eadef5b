use geometry::determinant::{array_cofactor, array_minor, determinant_2};
use geometry::submatrix::{array_submatrix, submatrix_3, submatrix_4};
use geometry::{Mat2, Mat3, Mat4, Matr2, Matr3, Matr4, SortaEq, Vert4};

fn mat4(array: [f32; 16]) -> Mat4<f32> {
    Mat4::new(array)
}

fn same_rows(row: Vert4<f32>, expected: Vert4<f32>) -> bool {
    row.ehh_maybe(&expected)
}

#[test]
fn det_calc_det() {
    let a = Mat2::<f32>::new([1.0, 5.0, -3.0, 2.0]);
    assert_eq!(a.determinant(), 17.0)
}

#[test]
fn determinant_calc_det() {
    let a = Matr3::<f32>::new([1.0, 2.0, 6.0, -5.0, 8.0, -4.0, 2.0, 6.0, 4.0]);
    assert_eq!(a.cofactor(0, 0), 56.0);
    assert_eq!(a.cofactor(0, 1), 12.0);
    assert_eq!(a.cofactor(0, 2), -46.0);
    assert_eq!(a.determinant(), -196.0);
}

#[test]
fn calc_minor() {
    let a = Mat3::<f32>::new([3.0, 5.0, 0.0, 2.0, -1.0, -7.0, 6.0, -1.0, 5.0]);
    let b = a.submatrix(1, 0);
    assert_eq!(b.determinant(), a.minor(1, 0))
}

#[test]
fn submat_submat() {
    let a = Mat3::<f32>::new([1.0, 5.0, 0.0, -3.0, 2.0, 7.0, 0.0, 6.0, -3.0]);
    assert_eq!(a.submat(0, 2).as_array(), &[-3.0, 2.0, 0.0, 6.0]);

    let a = mat4([
        -6.0, 1.0, 1.0, 6.0, -8.0, 5.0, 8.0, 6.0, -1.0, 0.0, 8.0, 2.0, -7.0, 1.0, -1.0, 1.0,
    ]);
    assert_eq!(
        a.submat(2, 1).as_array(),
        &[-6.0, 1.0, 6.0, -8.0, 8.0, 6.0, -7.0, -1.0, 1.0]
    )
}

#[test]
fn submatrix_submat() {
    let a = Matr3::<f32>::new([1.0, 5.0, 0.0, -3.0, 2.0, 7.0, 0.0, 6.0, -3.0]);
    assert_eq!(a.submatrix(0, 2).as_array(), Matr2::new([-3.0, 2.0, 0.0, 6.0]).as_array());

    let a = Matr4::<f32>::new([
        -6.0, 1.0, 1.0, 6.0, -8.0, 5.0, 8.0, 6.0, -1.0, 0.0, 8.0, 2.0, -7.0, 1.0, -1.0, 1.0,
    ]);
    assert_eq!(
        a.submatrix(2, 1).as_array(),
        Matr3::new([-6.0, 1.0, 6.0, -8.0, 8.0, 6.0, -7.0, -1.0, 1.0]).as_array()
    )
}

#[test]
fn inverse_invertible() {
    let a = mat4([
        6.0, 4.0, 4.0, 4.0, 5.0, 5.0, 7.0, 6.0, 4.0, -9.0, 3.0, -7.0, 9.0, 1.0, 7.0, -6.0,
    ]);
    assert_eq!(a.determinant(), -2120.0);
    assert!(a.is_invertible())
}

#[test]
fn inverse_non_invertible() {
    let a = mat4([
        -4.0, 2.0, -2.0, -3.0, 9.0, 6.0, 2.0, 6.0, 0.0, -5.0, 1.0, -5.0, 0.0, 0.0, 0.0, 0.0,
    ]);
    assert_eq!(a.determinant(), 0.0);
    assert!(!a.is_invertible())
}

#[test]
fn inverse_calculating_inverse_2() {
    let a = mat4([
        8.0, -5.0, 9.0, 2.0, 7.0, 5.0, 6.0, 1.0, -6.0, 0.0, 9.0, 6.0, -3.0, 0.0, -9.0, -4.0,
    ]);

    let i = a.inverse().unwrap();

    let rows = i.as_row_vectors();
    assert!(same_rows(rows[0], Vert4::new(-0.15385, -0.15385, -0.28205, -0.53846)));
    assert!(same_rows(rows[1], Vert4::new(-0.07692, 0.12308, 0.02564, 0.03077)));
    assert!(same_rows(rows[2], Vert4::new(0.35897, 0.35897, 0.43590, 0.92308)));
    assert!(same_rows(rows[3], Vert4::new(-0.69231, -0.69231, -0.76923, -1.92308)));
}

#[test]
fn inverse_calculating_inverse_3() {
    let m = mat4([
        9.0, 3.0, 0.0, 9.0, -5.0, -2.0, -6.0, -3.0, -4.0, 9.0, 6.0, 4.0, -7.0, 6.0, 6.0, 2.0,
    ]);

    let i = m.inverse().unwrap();

    let rows = i.as_row_vectors();
    assert!(same_rows(rows[0], Vert4::new(-0.04074, -0.07778, 0.14444, -0.22222)));
    assert!(same_rows(rows[1], Vert4::new(-0.07778, 0.03333, 0.36667, -0.33333)));
    assert!(same_rows(rows[2], Vert4::new(-0.02901, -0.14630, -0.10926, 0.12963)));
    assert!(same_rows(rows[3], Vert4::new(0.17778, 0.06667, -0.26667, 0.33333)));
}

#[test]
fn inverse_matrix_product_and_product_with_inverse_of_second_gives_original() {
    let m1 = mat4([
        3.0, -9.0, 7.0, 3.0, 3.0, -8.0, 2.0, -9.0, -4.0, 4.0, 4.0, 1.0, -6.0, 5.0, -1.0, 1.0,
    ]);
    let m2 = mat4([
        8.0, 2.0, 2.0, 2.0, 3.0, -1.0, 7.0, 0.0, 7.0, 0.0, 5.0, 4.0, 6.0, -2.0, 0.0, 5.0,
    ]);
    let m1_m2_prod = m1 * m2;
    let i2 = m2.inverse().unwrap();
    let m1_m2_prod_i2_prod = m1_m2_prod * i2;
    assert!(m1_m2_prod_i2_prod.ehh_maybe(&m1));
}

#[test]
fn free_submatrix_functions_agree_with_the_methods() {
    let a = Matr3::<f32>::new([1.0, 5.0, 0.0, -3.0, 2.0, 7.0, 0.0, 6.0, -3.0]);
    for row in 0..3 {
        for col in 0..3 {
            let by_fn = submatrix_3(&a, row, col);
            let by_array = array_submatrix::<f32, 3, 9, 4>(*a.as_array(), row, col);
            assert_eq!(by_fn.as_array(), a.submat(row, col).as_array());
            assert_eq!(by_fn.as_array(), &by_array);
        }
    }
    let b = Matr4::<f32>::new([
        -6.0, 1.0, 1.0, 6.0, -8.0, 5.0, 8.0, 6.0, -1.0, 0.0, 8.0, 2.0, -7.0, 1.0, -1.0, 1.0,
    ]);
    for row in 0..4 {
        for col in 0..4 {
            let by_fn = submatrix_4(&b, row, col);
            let by_array = array_submatrix::<f32, 4, 16, 9>(*b.as_array(), row, col);
            assert_eq!(by_fn.as_array(), b.submat(row, col).as_array());
            assert_eq!(by_fn.as_array(), &by_array);
        }
    }
}

#[test]
fn submatrix_of_a_corner_keeps_the_opposite_block() {
    let a = Matr3::<f32>::new([1.0, 2.0, 3.0, 4.0, 5.0, 6.0, 7.0, 8.0, 9.0]);
    assert_eq!(a.submatrix(0, 0).as_array(), &[5.0, 6.0, 8.0, 9.0]);
    assert_eq!(a.submatrix(2, 2).as_array(), &[1.0, 2.0, 4.0, 5.0]);
    assert_eq!(a.submatrix(1, 1).as_array(), &[1.0, 3.0, 7.0, 9.0]);
    let one = array_submatrix::<f32, 1, 1, 0>([4.0], 0, 0);
    assert_eq!(one.len(), 0);
}

#[test]
fn array_functions_follow_the_matrix_methods() {
    let array: [f32; 9] = [3.0, 5.0, 0.0, 2.0, -1.0, -7.0, 6.0, -1.0, 5.0];
    assert_eq!(determinant_2(&[1.0_f32, 5.0, -3.0, 2.0]), 17.0);
    assert_eq!(array_minor(array, 0, 0), -12.0);
    assert_eq!(array_cofactor(array, 0, 0), -12.0);
    assert_eq!(array_minor(array, 1, 0), 25.0);
    assert_eq!(array_cofactor(array, 1, 0), -25.0);
}

#[test]
fn determinant_of_the_identity_is_one() {
    assert_eq!(Matr2::<f32>::identity().determinant(), 1.0);
    assert_eq!(Matr3::<f32>::identity().determinant(), 1.0);
    assert_eq!(Matr4::<f32>::identity().determinant(), 1.0);
}

#[test]
fn inverse_exists_exactly_when_the_determinant_is_not_zero() {
    let singular = mat4([
        -4.0, 2.0, -2.0, -3.0, 9.0, 6.0, 2.0, 6.0, 0.0, -5.0, 1.0, -5.0, 0.0, 0.0, 0.0, 0.0,
    ]);
    assert_eq!(singular.determinant(), 0.0);
    assert!(singular.inverse().is_none());
    let regular = mat4([
        6.0, 4.0, 4.0, 4.0, 5.0, 5.0, 7.0, 6.0, 4.0, -9.0, 3.0, -7.0, 9.0, 1.0, 7.0, -6.0,
    ]);
    assert!(regular.determinant() != 0.0);
    assert!(regular.inverse().is_some());
    let flat = Matr3::<f32>::new([1.0, 2.0, 3.0, 2.0, 4.0, 6.0, 0.0, 1.0, 5.0]);
    assert_eq!(flat.determinant(), 0.0);
    assert!(!flat.is_invertible());
    assert!(flat.inverse().is_none());
}

#[test]
fn a_matrix_times_its_inverse_is_the_identity() {
    let a = mat4([
        -5.0, 2.0, 6.0, -8.0, 1.0, -5.0, 1.0, 8.0, 7.0, 7.0, -6.0, -7.0, 1.0, -3.0, 7.0, 4.0,
    ]);
    let i = a.inverse().unwrap();
    assert!((a * i).ehh_maybe(&Matr4::identity()));
    assert!((i * a).ehh_maybe(&Matr4::identity()));
}

#[test]
fn inverse_of_three_rows() {
    let a = Matr3::<f32>::new([2.0, 0.0, 0.0, 0.0, 4.0, 0.0, 0.0, 0.0, 8.0]);
    assert_eq!(a.determinant(), 64.0);
    let i = a.inverse().unwrap();
    assert_eq!(i.as_array(), &[0.5, 0.0, 0.0, 0.0, 0.25, 0.0, 0.0, 0.0, 0.125]);
    let b = Matr3::<f32>::new([1.0, 2.0, 0.0, 0.0, 1.0, 0.0, 0.0, 0.0, 1.0]);
    let j = b.inverse().unwrap();
    assert_eq!(j.get(0, 1), -2.0);
    assert_eq!(j.get(1, 0), 0.0);
}

#[test]
fn transposing_twice_gives_the_matrix_back() {
    let a = mat4([
        0.0, 9.0, 3.0, 0.0, 9.0, 8.0, 0.0, 8.0, 1.0, 8.0, 5.0, 3.0, 0.0, 0.0, 5.0, 8.0,
    ]);
    assert_eq!(a.transpose().transpose().as_array(), a.as_array());
    let b = Matr3::<f32>::new([1.0, 2.0, 3.0, 4.0, 5.0, 6.0, 7.0, 8.0, 9.0]);
    assert_eq!(b.transpose().as_array(), &[1.0, 4.0, 7.0, 2.0, 5.0, 8.0, 3.0, 6.0, 9.0]);
    assert_eq!(b.transpose().transpose().as_array(), b.as_array());
    let c = Matr2::<f32>::new([1.0, 2.0, 3.0, 4.0]);
    assert_eq!(c.transpose().as_array(), &[1.0, 3.0, 2.0, 4.0]);
}

#[test]
fn transpose_of_a_product_is_the_product_of_the_transposes_reversed() {
    let a = mat4([
        1.0, 2.0, 3.0, 4.0, 5.0, 6.0, 7.0, 8.0, 9.0, 8.0, 7.0, 6.0, 5.0, 4.0, 3.0, 2.0,
    ]);
    let b = mat4([
        -2.0, 1.0, 2.0, 3.0, 3.0, 2.0, 1.0, -1.0, 4.0, 3.0, 6.0, 5.0, 1.0, 2.0, 7.0, 8.0,
    ]);
    assert_eq!((a * b).transpose().as_array(), (b.transpose() * a.transpose()).as_array());
}
