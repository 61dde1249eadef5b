use geometry::{Matr2, Matr3, Matr4, SortaEq, Vert4};

fn mat4(array: [f32; 16]) -> Matr4<f32> {
    Matr4::from_array(array)
}

fn same_rows(row: Vert4<f32>, expected: Vert4<f32>) -> bool {
    row.ehh_maybe(&expected)
}

#[test]
fn matrix_constructing_mat4() {
    let m = Matr4::<f32>::from_array([
        1.0, 2.0, 3.0, 4.0, 5.5, 6.5, 7.5, 8.5, 9.0, 10.0, 11.0, 12.0, 13.5, 14.5, 15.5, 16.5,
    ]);
    assert_eq!(m.get(0, 0), 1.0);
    assert_eq!(m.get(0, 3), 4.0);
    assert_eq!(m.get(1, 0), 5.5);
    assert_eq!(m.get(1, 2), 7.5);
    assert_eq!(m.get(2, 2), 11.0);
    assert_eq!(m.get(3, 0), 13.5);
    assert_eq!(m.get(3, 2), 15.5);
}

#[test]
fn matrix_constructing_mat3() {
    let m = Matr3::<f32>::from_array([-3.0, 5.0, 0.0, 1.0, -2.0, -7.0, 0.0, 1.0, 1.0]);
    assert_eq!(m.get(0, 0), -3.0);
    assert_eq!(m.get(1, 1), -2.0);
    assert_eq!(m.get(2, 2), 1.0);
}

#[test]
fn matrix_constructing_mat2() {
    let m = Matr2::<f32>::from_array([-3.0, 5.0, 1.0, -2.0]);
    assert_eq!(m.get(0, 0), -3.0);
    assert_eq!(m.get(0, 1), 5.0);
    assert_eq!(m.get(1, 0), 1.0);
    assert_eq!(m.get(1, 1), -2.0);
}

#[test]
fn calculating_determinant_1() {
    let a = Matr2::<f32>::from_array([1.0, 5.0, -3.0, 2.0]);
    assert_eq!(a.determinant(), 17.0)
}

#[test]
fn calculating_cofactor_1() {
    let a = Matr3::<f32>::from_array([3.0, 5.0, 0.0, 2.0, -1.0, -7.0, 6.0, -1.0, 5.0]);

    assert_eq!(a.minor(0, 0), -12.0);
    assert_eq!(a.cofactor(0, 0), -12.0);

    assert_eq!(a.minor(1, 0), 25.0);
    assert_eq!(a.cofactor(1, 0), -25.0);
}

#[test]
fn matrix_equality() {
    let a = mat4([
        1.0, 2.0, 3.0, 4.0, 5.0, 6.0, 7.0, 8.0, 9.0, 8.0, 7.0, 6.0, 5.0, 4.0, 3.0, 2.0,
    ]);
    let b = mat4([
        1.0, 2.0, 3.0, 4.0, 5.0, 6.0, 7.0, 8.0, 9.0, 8.0, 7.0, 6.0, 5.0, 4.0, 3.0, 2.0,
    ]);
    assert!(a.ehh_maybe(&b))
}

#[test]
fn matrix_inequality() {
    let a = mat4([
        1.0, 2.0, 3.0, 4.0, 5.0, 6.0, 7.0, 8.0, 9.0, 8.0, 7.0, 6.0, 5.0, 4.0, 3.0, 2.0,
    ]);
    let b = mat4([
        2.0, 3.0, 4.0, 5.0, 6.0, 7.0, 8.0, 9.0, 8.0, 7.0, 6.0, 5.0, 4.0, 3.0, 2.0, 1.0,
    ]);
    assert!(!a.ehh_maybe(&b))
}

#[test]
fn matrix_multiplication_by_matrix() {
    let a = mat4([
        1.0, 2.0, 3.0, 4.0, 5.0, 6.0, 7.0, 8.0, 9.0, 8.0, 7.0, 6.0, 5.0, 4.0, 3.0, 2.0,
    ]);
    let b = mat4([
        -2.0, 1.0, 2.0, 3.0, 3.0, 2.0, 1.0, -1.0, 4.0, 3.0, 6.0, 5.0, 1.0, 2.0, 7.0, 8.0,
    ]);
    assert!((a * b).ehh_maybe(&mat4([
        20.0, 22.0, 50.0, 48.0, 44.0, 54.0, 114.0, 108.0, 40.0, 58.0, 110.0, 102.0, 16.0, 26.0,
        46.0, 42.0
    ])))
}

#[test]
fn matrix_multiplication_by_vertex() {
    let a = mat4([
        1.0, 2.0, 3.0, 4.0, 2.0, 4.0, 4.0, 2.0, 8.0, 6.0, 4.0, 1.0, 0.0, 0.0, 0.0, 1.0,
    ]);
    let b = Vert4::<f32>::new(1.0, 2.0, 3.0, 1.0);
    assert!((a * b).ehh_maybe(&Vert4::new(18.0, 24.0, 33.0, 1.0)))
}

#[test]
fn matrix_multiplication_by_ident() {
    let a = mat4([
        0.0, 1.0, 2.0, 4.0, 1.0, 2.0, 4.0, 8.0, 2.0, 4.0, 8.0, 16.0, 4.0, 8.0, 16.0, 32.0,
    ]);
    assert!((a * Matr4::identity()).ehh_maybe(&a))
}

#[test]
fn matrix_multiplication_of_vertex_by_ident() {
    let a = Vert4::<f32>::new(1.0, 2.0, 3.0, 4.0);
    assert!((Matr4::identity() * a).ehh_maybe(&a))
}

#[test]
fn matrix_transposition() {
    let a = mat4([
        0.0, 9.0, 3.0, 0.0, 9.0, 8.0, 0.0, 8.0, 1.0, 8.0, 5.0, 3.0, 0.0, 0.0, 5.0, 8.0,
    ]);
    assert!(a.transpose().ehh_maybe(&mat4([
        0.0, 9.0, 1.0, 0.0, 9.0, 8.0, 8.0, 0.0, 3.0, 0.0, 5.0, 5.0, 0.0, 8.0, 3.0, 8.0
    ])))
}

#[test]
fn matrix_transposition_of_ident() {
    let a = Matr4::<f32>::identity();
    assert!(a.transpose().ehh_maybe(&Matr4::identity()))
}

#[test]
fn calculate_determinant_1() {
    let a = mat4([
        -2.0, -8.0, 3.0, 5.0, -3.0, 1.0, 7.0, 3.0, 1.0, 2.0, -9.0, 6.0, -6.0, 7.0, 7.0, -9.0,
    ]);
    assert_eq!(a.cofactor(0, 0), 690.0);
    assert_eq!(a.cofactor(0, 1), 447.0);
    assert_eq!(a.cofactor(0, 2), 210.0);
    assert_eq!(a.cofactor(0, 3), 51.0);
    assert_eq!(a.determinant(), -4071.0);
}

#[test]
fn matrix_invertible() {
    let a = mat4([
        6.0, 4.0, 4.0, 4.0, 5.0, 5.0, 7.0, 6.0, 4.0, -9.0, 3.0, -7.0, 9.0, 1.0, 7.0, -6.0,
    ]);
    assert_eq!(a.determinant(), -2120.0);
    assert!(a.is_invertible())
}

#[test]
fn matrix_non_invertible() {
    let a = mat4([
        -4.0, 2.0, -2.0, -3.0, 9.0, 6.0, 2.0, 6.0, 0.0, -5.0, 1.0, -5.0, 0.0, 0.0, 0.0, 0.0,
    ]);
    assert_eq!(a.determinant(), 0.0);
    assert!(!a.is_invertible())
}

#[test]
fn matrix_calculating_inverse_1() {
    let a = mat4([
        -5.0, 2.0, 6.0, -8.0, 1.0, -5.0, 1.0, 8.0, 7.0, 7.0, -6.0, -7.0, 1.0, -3.0, 7.0, 4.0,
    ]);
    assert_eq!(a.determinant(), 532.0);
    assert_eq!(a.cofactor(2, 3), -160.0);
    assert_eq!(a.cofactor(3, 2), 105.0);

    let i = a.inverse().unwrap();

    assert_eq!(i.get(3, 2), -160.0 / 532.0);
    assert_eq!(i.get(2, 3), 105.0 / 532.0);

    let rows = i.as_row_vectors();
    assert!(same_rows(rows[0], Vert4::new(0.21805, 0.45113, 0.24060, -0.04511)));
    assert!(same_rows(rows[1], Vert4::new(-0.80827, -1.45677, -0.44361, 0.52068)));
    assert!(same_rows(rows[2], Vert4::new(-0.07895, -0.22368, -0.05263, 0.19737)));
    assert!(same_rows(rows[3], Vert4::new(-0.52256, -0.81391, -0.30075, 0.30639)));
}

#[test]
fn matrix_calculating_inverse_2() {
    let a = mat4([
        8.0, -5.0, 9.0, 2.0, 7.0, 5.0, 6.0, 1.0, -6.0, 0.0, 9.0, 6.0, -3.0, 0.0, -9.0, -4.0,
    ]);

    let i = a.inverse().unwrap();

    let rows = i.as_row_vectors();
    assert!(same_rows(rows[0], Vert4::new(-0.15385, -0.15385, -0.28205, -0.53846)));
    assert!(same_rows(rows[1], Vert4::new(-0.07692, 0.12308, 0.02564, 0.03077)));
    assert!(same_rows(rows[2], Vert4::new(0.35897, 0.35897, 0.43590, 0.92308)));
    assert!(same_rows(rows[3], Vert4::new(-0.69231, -0.69231, -0.76923, -1.92308)));
}

#[test]
fn matrix_calculating_inverse_3() {
    let m = mat4([
        9.0, 3.0, 0.0, 9.0, -5.0, -2.0, -6.0, -3.0, -4.0, 9.0, 6.0, 4.0, -7.0, 6.0, 6.0, 2.0,
    ]);

    let i = m.inverse().unwrap();

    let rows = i.as_row_vectors();
    assert!(same_rows(rows[0], Vert4::new(-0.04074, -0.07778, 0.14444, -0.22222)));
    assert!(same_rows(rows[1], Vert4::new(-0.07778, 0.03333, 0.36667, -0.33333)));
    assert!(same_rows(rows[2], Vert4::new(-0.02901, -0.14630, -0.10926, 0.12963)));
    assert!(same_rows(rows[3], Vert4::new(0.17778, 0.06667, -0.26667, 0.33333)));
}

#[test]
fn matrix_matrix_product_and_product_with_inverse_of_second_gives_original() {
    let m1 = mat4([
        3.0, -9.0, 7.0, 3.0, 3.0, -8.0, 2.0, -9.0, -4.0, 4.0, 4.0, 1.0, -6.0, 5.0, -1.0, 1.0,
    ]);
    let m2 = mat4([
        8.0, 2.0, 2.0, 2.0, 3.0, -1.0, 7.0, 0.0, 7.0, 0.0, 5.0, 4.0, 6.0, -2.0, 0.0, 5.0,
    ]);
    let m1_m2_prod = m1 * m2;
    let i2 = m2.inverse().unwrap();
    let m1_m2_prod_i2_prod = m1_m2_prod * i2;
    assert!(m1_m2_prod_i2_prod.ehh_maybe(&m1));
}
