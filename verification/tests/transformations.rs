use core::f32::consts::PI;
use geometry::transform::clock;
use geometry::{
    Matr4, RotationAbout, RotationAxes, ShearOf, ShearingProportion, SortaEq, TranslationMatrix,
    Vert4, X, Y, Z,
};

fn rotation_x_rad(rad: f32) -> Matr4<f32> {
    Matr4::rotation_x(rad.cos(), rad.sin())
}

fn rotation_y_rad(rad: f32) -> Matr4<f32> {
    Matr4::rotation_y(rad.cos(), rad.sin())
}

fn rotation_z_rad(rad: f32) -> Matr4<f32> {
    Matr4::rotation_z(rad.cos(), rad.sin())
}

fn same(a: Vert4<f32>, b: Vert4<f32>) -> bool {
    a.ehh_maybe(&b)
}

#[test]
fn transformations_multiplying_by_a_translation_matrix() {
    let transform = TranslationMatrix::<f32>::new(5., -3., 2.);
    let p = Vert4::new(-3., 4., 5., 1.);

    let res = *transform.matrix() * p;
    assert!(res.ehh_maybe(&Vert4::new(2., 1., 7., 1.)))
}

#[test]
fn transformations_multiplying_by_the_inverse_of_a_translation_matrix() {
    let transform = TranslationMatrix::<f32>::new(5., -3., 2.);
    let p = Vert4::new(-3., 4., 5., 1.);
    let inv = transform.matrix().inverse().unwrap();
    let res = inv * p;
    assert!(res.ehh_maybe(&Vert4::new(-8., 7., 3., 1.)))
}

#[test]
fn transformations_translation_does_not_affect_vectors() {
    let transform = TranslationMatrix::<f32>::new(5., -3., 2.);
    let v = Vert4::new(-3., 4., 5., 0.);
    let res = *transform.matrix() * v;
    assert!(res.ehh_maybe(&v))
}

#[test]
fn matrix_transformations_multiplying_by_a_translation_matrix() {
    let transform = Matr4::<f32>::translation(5., -3., 2.);
    let p = Vert4::new(-3., 4., 5., 1.);

    let res = transform * p;
    assert!(same(res, Vert4::new(2., 1., 7., 1.)))
}

#[test]
fn matrix_transformations_multiplying_by_the_inverse_of_a_translation_matrix() {
    let transform = Matr4::<f32>::translation(5., -3., 2.);
    let p = Vert4::point(-3., 4., 5.);

    let inv = transform.inverse().unwrap();

    let res = inv * p;
    assert!(same(res, Vert4::point(-8., 7., 3.)))
}

#[test]
fn matrix_transformations_translation_does_not_affect_vectors() {
    let transform = Matr4::<f32>::translation(5., -3., 2.);
    let v = Vert4::vector(-3., 4., 5.);
    let res = transform * v;
    assert!(same(res, v));
    assert_eq!(res.0, v.0)
}

#[test]
fn a_scaling_matrix_applied_to_a_point() {
    let transform = Matr4::<f32>::scaling(2., 3., 4.);
    let p = Vert4::point(-4., 6., 8.);
    let res = transform * p;
    assert!(same(res, Vert4::point(-8., 18., 32.)))
}

#[test]
fn a_scaling_matrix_applied_to_a_vector() {
    let transform = Matr4::<f32>::scaling(2., 3., 4.);
    let v = Vert4::vector(-4., 6., 8.);
    let res = transform * v;
    assert!(same(res, Vert4::vector(-8., 18., 32.)))
}

#[test]
fn multiplying_by_the_inverse_of_a_scaling_matrix() {
    let transform = Matr4::<f32>::scaling(2., 3., 4.);
    let inv = transform.inverse().unwrap();
    let v = Vert4::vector(-4., 6., 8.);
    let res = inv * v;
    assert!(same(res, Vert4::vector(-2., 2., 2.)))
}

#[test]
fn reflection_is_scaling_by_a_negative_value() {
    let transform = Matr4::<f32>::scaling(-1., 1., 1.);
    let p = Vert4::point(2., 3., 4.);
    let res = transform * p;
    assert!(same(res, Vert4::point(-2., 3., 4.)))
}

#[test]
fn rotating_a_point_around_the_x_axis() {
    let p = Vert4::<f32>::point(0., 1., 0.);

    let half_quarter = rotation_x_rad(PI / 4.);
    let half_rotp = half_quarter * p;
    assert!(same(half_rotp, Vert4::point(0., 2_f32.sqrt() / 2., 2_f32.sqrt() / 2.)));

    let full_quarter = rotation_x_rad(PI / 2.);
    let full_rotp = full_quarter * p;
    assert!(same(full_rotp, Vert4::point(0., 0., 1.)))
}

#[test]
fn the_inverse_of_an_x_rotation_rotates_in_the_oppsite_direction() {
    let p = Vert4::<f32>::point(0., 1., 0.);

    let half_quarter = rotation_x_rad(PI / 4.);
    let inv = half_quarter.inverse().unwrap();
    let half_rotp = inv * p;
    assert!(same(half_rotp, Vert4::point(0., 2_f32.sqrt() / 2., -(2_f32.sqrt() / 2.))));
}

#[test]
fn rotating_a_point_around_the_y_axis() {
    let p = Vert4::<f32>::point(0., 0., 1.);

    let half_quarter = rotation_y_rad(PI / 4.);
    let half_rotp = half_quarter * p;
    assert!(same(half_rotp, Vert4::point(2_f32.sqrt() / 2., 0., 2_f32.sqrt() / 2.)));

    let full_quarter = rotation_y_rad(PI / 2.);
    let full_rotp = full_quarter * p;
    assert!(same(full_rotp, Vert4::point(1., 0., 0.)))
}

#[test]
fn rotating_a_point_around_the_z_axis() {
    let p = Vert4::<f32>::point(0., 1., 0.);

    let half_quarter = rotation_z_rad(PI / 4.);
    let half_rotp = half_quarter * p;
    assert!(same(half_rotp, Vert4::point(-2_f32.sqrt() / 2., 2_f32.sqrt() / 2., 0.)));

    let full_quarter = rotation_z_rad(PI / 2.);
    let full_rotp = full_quarter * p;
    assert!(same(full_rotp, Vert4::point(-1., 0., 0.)))
}

#[test]
fn a_shearing_transformation_moves_x_in_proportion_to_y() {
    let transform = Matr4::<f32>::shearing(
        ShearingProportion::new(1., 0.),
        ShearingProportion::default(),
        ShearingProportion::default(),
    );
    let p = Vert4::point(2., 3., 4.);
    assert!(same(transform * p, Vert4::point(5., 3., 4.)))
}

#[test]
fn a_shearing_transformation_moves_x_in_proportion_to_z() {
    let transform = Matr4::<f32>::shearing(
        ShearingProportion::new(0., 1.),
        ShearingProportion::default(),
        ShearingProportion::default(),
    );
    let p = Vert4::point(2., 3., 4.);
    assert!(same(transform * p, Vert4::point(6., 3., 4.)))
}

#[test]
fn a_shearing_transformation_moves_y_in_proportion_to_x() {
    let transform = Matr4::<f32>::shearing(
        ShearingProportion::default(),
        ShearingProportion::new(1., 0.),
        ShearingProportion::default(),
    );
    let p = Vert4::point(2., 3., 4.);
    assert!(same(transform * p, Vert4::point(2., 5., 4.)))
}

#[test]
fn a_shearing_transformation_moves_y_in_proportion_to_z() {
    let transform = Matr4::<f32>::shearing(
        ShearingProportion::default(),
        ShearingProportion::new(0., 1.),
        ShearingProportion::default(),
    );
    let p = Vert4::point(2., 3., 4.);
    assert!(same(transform * p, Vert4::point(2., 7., 4.)))
}

#[test]
fn a_shearing_transformation_moves_z_in_proportion_to_x() {
    let transform = Matr4::<f32>::shearing(
        ShearingProportion::default(),
        ShearingProportion::default(),
        ShearingProportion::new(1., 0.),
    );
    let p = Vert4::point(2., 3., 4.);
    assert!(same(transform * p, Vert4::point(2., 3., 6.)))
}

#[test]
fn a_shearing_transformation_moves_z_in_proportion_to_y() {
    let transform = Matr4::<f32>::shearing(
        ShearingProportion::default(),
        ShearingProportion::default(),
        ShearingProportion::new(0., 1.),
    );
    let p = Vert4::point(2., 3., 4.);
    assert!(same(transform * p, Vert4::point(2., 3., 7.)))
}

fn initial_point() -> Vert4<f32> {
    Vert4::point(1., 0., 1.)
}

fn a_matr() -> Matr4<f32> {
    rotation_x_rad(PI / 2.)
}

fn b_matr() -> Matr4<f32> {
    Matr4::scaling(5., 5., 5.)
}

fn c_matr() -> Matr4<f32> {
    Matr4::translation(10., 5., 7.)
}

#[test]
fn individual_transformations_are_applied_in_sequence() {
    let p_a = a_matr() * initial_point();
    assert!(same(p_a, Vert4::point(1., -1., 0.)));

    let p_b = b_matr() * p_a;
    assert!(same(p_b, Vert4::point(5., -5., 0.)));

    let p_c = c_matr() * p_b;
    assert!(same(p_c, Vert4::point(15., 0., 7.)));
}

#[test]
fn chained_transformations_must_be_applied_in_reverse_order() {
    let t = c_matr() * b_matr() * a_matr() * initial_point();
    assert!(same(t, Vert4::point(15., 0., 7.)));
}

#[test]
fn chained_product_equals_step_by_step_application() {
    let p = Vert4::<f32>::point(2., -3., 4.);
    let a = rotation_z_rad(PI / 3.);
    let b = Matr4::<f32>::scaling(2., 0.5, -1.);
    let c = Matr4::<f32>::translation(1., 2., 3.);
    let chained = (c * b * a) * p;
    let stepwise = c * (b * (a * p));
    assert!(same(chained, stepwise));
}

#[test]
fn builders_place_their_scalars() {
    let t = Matr4::<f32>::translation(5., -3., 2.);
    assert_eq!(
        t.as_array(),
        &[1., 0., 0., 5., 0., 1., 0., -3., 0., 0., 1., 2., 0., 0., 0., 1.]
    );
    let s = Matr4::<f32>::scaling(2., 3., 4.);
    assert_eq!(
        s.as_array(),
        &[2., 0., 0., 0., 0., 3., 0., 0., 0., 0., 4., 0., 0., 0., 0., 1.]
    );
    let rx = Matr4::<f32>::rotation_x(0.6, 0.8);
    assert_eq!(
        rx.as_array(),
        &[1., 0., 0., 0., 0., 0.6, -0.8, 0., 0., 0.8, 0.6, 0., 0., 0., 0., 1.]
    );
    let ry = Matr4::<f32>::rotation_y(0.6, 0.8);
    assert_eq!(
        ry.as_array(),
        &[0.6, 0., 0.8, 0., 0., 1., 0., 0., -0.8, 0., 0.6, 0., 0., 0., 0., 1.]
    );
    let rz = Matr4::<f32>::rotation_z(0.6, 0.8);
    assert_eq!(
        rz.as_array(),
        &[0.6, -0.8, 0., 0., 0.8, 0.6, 0., 0., 0., 0., 1., 0., 0., 0., 0., 1.]
    );
    let sh = Matr4::<f32>::shearing(
        ShearingProportion::new(1., 2.),
        ShearingProportion::new(3., 4.),
        ShearingProportion::new(5., 6.),
    );
    assert_eq!(
        sh.as_array(),
        &[1., 1., 2., 0., 3., 1., 4., 0., 5., 6., 1., 0., 0., 0., 0., 1.]
    );
}

#[test]
fn clock_turns_twelve_about_the_y_axis() {
    let mut turns = [(0.0_f32, 0.0_f32); 12];
    for (idx, turn) in turns.iter_mut().enumerate() {
        let rad = (idx as f32 * (2. * PI)) / 12.0;
        *turn = (rad.cos(), rad.sin());
    }
    let twelve = Vert4::<f32>::point(0., 0., 1.);
    let hours = clock(twelve, &turns);
    assert_eq!(hours.len(), 12);
    assert!(same(hours[0], twelve));
    assert!(same(hours[3], Vert4::point(1., 0., 0.)));
    assert!(same(hours[6], Vert4::point(0., 0., -1.)));
    assert!(same(hours[9], Vert4::point(-1., 0., 0.)));
}

#[test]
fn rotation_entries_follow_the_cosine_and_sine() {
    let about_x: RotationAbout<f32, X> = RotationAbout::new(0.6, 0.8);
    let yz = about_x.into_axes();
    assert_eq!((yz.yy(), yz.yz(), yz.zy(), yz.zz()), (0.6, -0.8, 0.8, 0.6));
    let about_y: RotationAbout<f32, Y> = RotationAbout::new(0.6, 0.8);
    let xz = about_y.into_axes();
    assert_eq!((xz.xx(), xz.xz(), xz.zx(), xz.zz()), (0.6, 0.8, -0.8, 0.6));
    let about_z: RotationAbout<f32, Z> = RotationAbout::new(0.6, 0.8);
    let xy = about_z.into_axes();
    assert_eq!((xy.xx(), xy.xy(), xy.yx(), xy.yy()), (0.6, -0.8, 0.8, 0.6));
    let plain: RotationAxes<f32, Y, Z> = RotationAxes::new(1.0, 0.0);
    assert_eq!((plain.yy(), plain.zy()), (1.0, 0.0));
    let shear: ShearOf<f32, X> = ShearOf::new(2.5);
    assert_eq!(shear.0, 2.5);
    let none: ShearingProportion<f32, X> = ShearingProportion::default();
    assert_eq!((none.ratio_to_primary.0, none.ratio_to_secondary.0), (0.0, 0.0));
}
