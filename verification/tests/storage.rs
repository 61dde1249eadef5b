use geometry::{Mat2, Mat3, Mat4, SortaEq, Vert4};

fn mat4(array: [f32; 16]) -> Mat4<f32> {
    Mat4::new(array)
}

#[test]
fn mod_constructing_mat4() {
    let m = mat4([
        1.0, 2.0, 3.0, 4.0, 5.5, 6.5, 7.5, 8.5, 9.0, 10.0, 11.0, 12.0, 13.5, 14.5, 15.5, 16.5,
    ]);
    assert_eq!(m.get(0, 0), 1.0);
    assert_eq!(m.get(0, 3), 4.0);
    assert_eq!(m.get(1, 0), 5.5);
    assert_eq!(m.get(1, 2), 7.5);
    assert_eq!(m.get(2, 2), 11.0);
    assert_eq!(m.get(3, 0), 13.5);
    assert_eq!(m.get(3, 2), 15.5);
}

#[test]
fn mod_constructing_mat3() {
    let m = Mat3::<f32>::new([-3.0, 5.0, 0.0, 1.0, -2.0, -7.0, 0.0, 1.0, 1.0]);
    assert_eq!(m.get(0, 0), -3.0);
    assert_eq!(m.get(1, 1), -2.0);
    assert_eq!(m.get(2, 2), 1.0);
}

#[test]
fn mod_constructing_mat2() {
    let m = Mat2::<f32>::new([-3.0, 5.0, 1.0, -2.0]);
    assert_eq!(m.get(0, 0), -3.0);
    assert_eq!(m.get(0, 1), 5.0);
    assert_eq!(m.get(1, 0), 1.0);
    assert_eq!(m.get(1, 1), -2.0);
}

#[test]
fn mod_equality() {
    let a = mat4([
        1.0, 2.0, 3.0, 4.0, 5.0, 6.0, 7.0, 8.0, 9.0, 8.0, 7.0, 6.0, 5.0, 4.0, 3.0, 2.0,
    ]);
    let b = mat4([
        1.0, 2.0, 3.0, 4.0, 5.0, 6.0, 7.0, 8.0, 9.0, 8.0, 7.0, 6.0, 5.0, 4.0, 3.0, 2.0,
    ]);
    assert!(a.ehh_maybe(&b));
    assert_eq!(a.as_array(), b.as_array())
}

#[test]
fn mod_inequality() {
    let a = mat4([
        1.0, 2.0, 3.0, 4.0, 5.0, 6.0, 7.0, 8.0, 9.0, 8.0, 7.0, 6.0, 5.0, 4.0, 3.0, 2.0,
    ]);
    let b = mat4([
        2.0, 3.0, 4.0, 5.0, 6.0, 7.0, 8.0, 9.0, 8.0, 7.0, 6.0, 5.0, 4.0, 3.0, 2.0, 1.0,
    ]);
    assert!(!a.ehh_maybe(&b));
    assert_ne!(a.as_array(), b.as_array())
}

#[test]
fn mod_multiplication_by_matrix() {
    let a = mat4([
        1.0, 2.0, 3.0, 4.0, 5.0, 6.0, 7.0, 8.0, 9.0, 8.0, 7.0, 6.0, 5.0, 4.0, 3.0, 2.0,
    ]);
    let b = mat4([
        -2.0, 1.0, 2.0, 3.0, 3.0, 2.0, 1.0, -1.0, 4.0, 3.0, 6.0, 5.0, 1.0, 2.0, 7.0, 8.0,
    ]);
    assert_eq!(
        (a * b).as_array(),
        &[
            20.0, 22.0, 50.0, 48.0, 44.0, 54.0, 114.0, 108.0, 40.0, 58.0, 110.0, 102.0, 16.0,
            26.0, 46.0, 42.0
        ]
    )
}

#[test]
fn mod_multiplication_by_vertex() {
    let a = mat4([
        1.0, 2.0, 3.0, 4.0, 2.0, 4.0, 4.0, 2.0, 8.0, 6.0, 4.0, 1.0, 0.0, 0.0, 0.0, 1.0,
    ]);
    let b = Vert4::<f32>::new(1.0, 2.0, 3.0, 1.0);
    assert!((a * b).ehh_maybe(&Vert4::new(18.0, 24.0, 33.0, 1.0)))
}

#[test]
fn mod_multiplication_by_ident() {
    let a = mat4([
        0.0, 1.0, 2.0, 4.0, 1.0, 2.0, 4.0, 8.0, 2.0, 4.0, 8.0, 16.0, 4.0, 8.0, 16.0, 32.0,
    ]);
    assert_eq!((a * Mat4::identity()).as_array(), a.as_array())
}

#[test]
fn mod_multiplication_of_vertex_by_ident() {
    let a = Vert4::<f32>::new(1.0, 2.0, 3.0, 4.0);
    assert!((Mat4::identity() * a).ehh_maybe(&a))
}

#[test]
fn mod_transposition() {
    let a = mat4([
        0.0, 9.0, 3.0, 0.0, 9.0, 8.0, 0.0, 8.0, 1.0, 8.0, 5.0, 3.0, 0.0, 0.0, 5.0, 8.0,
    ]);
    assert_eq!(
        a.transpose().as_array(),
        &[0.0, 9.0, 1.0, 0.0, 9.0, 8.0, 8.0, 0.0, 3.0, 0.0, 5.0, 5.0, 0.0, 8.0, 3.0, 8.0]
    )
}

#[test]
fn mod_transposition_of_ident() {
    let a = Mat4::<f32>::identity();
    assert_eq!(a.transpose().as_array(), Mat4::<f32>::identity().as_array())
}

#[test]
fn identity_has_ones_on_the_diagonal() {
    assert_eq!(Mat2::<f32>::identity().as_array(), &[1.0, 0.0, 0.0, 1.0]);
    assert_eq!(
        Mat3::<f32>::identity().as_array(),
        &[1.0, 0.0, 0.0, 0.0, 1.0, 0.0, 0.0, 0.0, 1.0]
    );
    assert_eq!(
        Mat4::<f32>::identity().as_array(),
        &[1.0, 0.0, 0.0, 0.0, 0.0, 1.0, 0.0, 0.0, 0.0, 0.0, 1.0, 0.0, 0.0, 0.0, 0.0, 1.0]
    );
}

#[test]
fn matrices_from_slices_take_the_leading_scalars() {
    let scalars: Vec<f32> = (0..20).map(|i| i as f32).collect();
    assert_eq!(Mat2::<f32>::from_slice(&scalars).as_array(), &[0.0, 1.0, 2.0, 3.0]);
    assert_eq!(
        Mat3::<f32>::from_slice(&scalars).as_array(),
        &[0.0, 1.0, 2.0, 3.0, 4.0, 5.0, 6.0, 7.0, 8.0]
    );
    let m = Mat4::<f32>::from_slice(&scalars);
    for index in 0..16 {
        assert_eq!(m.const_index(index), index as f32);
    }
    assert_eq!(Mat2::<f32>::from_slice(&scalars).const_index(3), 3.0);
    assert_eq!(Mat3::<f32>::from_slice(&scalars).const_index(8), 8.0);
}

#[test]
fn rows_and_columns_come_out_as_vertices() {
    let m = mat4([
        1.0, 2.0, 3.0, 4.0, 5.0, 6.0, 7.0, 8.0, 9.0, 10.0, 11.0, 12.0, 13.0, 14.0, 15.0, 16.0,
    ]);
    let rows = m.as_row_vectors();
    let cols = m.as_column_vectors();
    assert_eq!(rows[0].0, [1.0, 2.0, 3.0, 4.0]);
    assert_eq!(rows[3].0, [13.0, 14.0, 15.0, 16.0]);
    assert_eq!(cols[0].0, [1.0, 5.0, 9.0, 13.0]);
    assert_eq!(cols[2].0, [3.0, 7.0, 11.0, 15.0]);

    let three = Mat3::<f32>::new([1.0, 2.0, 3.0, 4.0, 5.0, 6.0, 7.0, 8.0, 9.0]);
    assert_eq!(three.as_row_vectors()[1].0, [4.0, 5.0, 6.0]);
    assert_eq!(three.as_column_vectors()[1].0, [2.0, 5.0, 8.0]);
    assert_eq!(Mat3::from_rows(three.as_row_vectors()).as_array(), three.as_array());
    assert_eq!(
        Mat3::from_rows(three.as_column_vectors()).as_array(),
        three.transpose().as_array()
    );

    let two = Mat2::<f32>::new([1.0, 2.0, 3.0, 4.0]);
    assert_eq!(two.as_row_vectors()[1].0, [3.0, 4.0]);
    assert_eq!(two.as_column_vectors()[1].0, [2.0, 4.0]);
}

#[test]
fn setting_a_scalar_changes_that_scalar_only() {
    let mut m = Mat4::<f32>::identity();
    m.set(1, 3, 7.5);
    assert_eq!(m.get(1, 3), 7.5);
    assert_eq!(
        m.as_array(),
        &[1.0, 0.0, 0.0, 0.0, 0.0, 1.0, 0.0, 7.5, 0.0, 0.0, 1.0, 0.0, 0.0, 0.0, 0.0, 1.0]
    );
}

#[test]
fn small_matrices_compare_approximately() {
    let two = Mat2::<f32>::new([1.0, 2.0, 3.0, 4.0]);
    assert!(two.ehh_maybe(&Mat2::new([1.0, 2.00001, 3.0, 4.0])));
    assert!(!two.ehh_maybe(&Mat2::new([1.0, 2.001, 3.0, 4.0])));
    let three = Mat3::<f32>::identity();
    assert!(three.ehh_maybe(&Mat3::identity()));
    assert!(!three.ehh_maybe(&Mat3::new([1.0, 0.0, 0.0, 0.0, 1.0, 0.0, 0.0, 0.5, 1.0])));
}
