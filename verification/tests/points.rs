use geometry::point::tuple_type;
use geometry::quaternion::{
    from_array, scalar_of, to_array, with_scalar_of, with_x_of, with_y_of, with_z_of,
    x_of, y_of, z_of,
};
use geometry::{Point, Pointlike, Quaternion, SortaEq, Tuple, TupleType, Vector};

fn tuple(x: f32, y: f32, z: f32, w: f32) -> Tuple<f32> {
    Tuple::new(x, y, z, w)
}

fn vector(x: f32, y: f32, z: f32) -> Vector<f32> {
    Vector::new(x, y, z)
}

#[test]
fn add_two_tuples() {
    let a1 = tuple(3.0, -2.0, 5.0, 1.0);
    let a2 = tuple(-2.0, 3.0, 1.0, 0.0);
    assert!((a1 + a2).ehh_maybe(&tuple(1.0, 1.0, 6.0, 1.0)));
}

#[test]
fn negating_tuple() {
    let a = tuple(1.0, -2.0, 3.0, -4.0);
    assert!((-a).ehh_maybe(&tuple(-1.0, 2.0, -3.0, 4.0)))
}

#[test]
fn multiplying_tuple_by_scalar() {
    let a = tuple(1.0, -2.0, 3.0, -4.0);
    assert!((a * 3.5).ehh_maybe(&tuple(3.5, -7.0, 10.5, -14.0)))
}

#[test]
fn multiplying_tuple_by_fraction() {
    let a = tuple(1.0, -2.0, 3.0, -4.0);
    assert!((a * 0.5).ehh_maybe(&tuple(0.5, -1.0, 1.5, -2.0)))
}

#[test]
fn dividing_tuple_by_scalar() {
    let a = tuple(1.0, -2.0, 3.0, -4.0);
    assert!((a / 2.0).ehh_maybe(&tuple(0.5, -1.0, 1.5, -2.0)))
}

#[test]
fn vector_constructor_w_eq_zero() {
    let v = Vector::<f32>::new(4.0, -4.0, 3.0);
    assert!(v.eq_tuple(&Tuple::new(4.0, -4.0, 3.0, 0.0)));
}

#[test]
fn a_tuple_with_w_eq_zero_is_a_vector() {
    let a = Vector::<f32>::new(4.3, -4.2, 3.1);
    assert!(a.eq_tuple(&Tuple::new(4.3, -4.2, 3.1, 0.0)));
    assert!(!a.is_point());
    assert!(a.is_vector());
}

#[test]
fn vector_two_vectors() {
    let v1 = vector(3.0, 2.0, 1.0);
    let v2 = vector(5.0, 6.0, 7.0);
    assert!((v1 - v2).ehh_maybe(&vector(-2.0, -4.0, -6.0)));

    let a = geometry::Vert4::<f32>::vector(1.0, 2.0, 3.0);
    let b = geometry::Vert4::<f32>::vector(2.0, 3.0, 4.0);
    assert_eq!(a.dot(b), 20.0);
}

#[test]
fn vector_vector_from_zero_vector() {
    let v = vector(1.0, -2.0, 3.0);
    assert!((Vector::zero() - v).ehh_maybe(&vector(-1.0, 2.0, -3.0)));

    let w = geometry::Vert4::<f32>::vector(1.0, -2.0, 3.0);
    assert!((geometry::Vert4::zero() - w).ehh_maybe(&geometry::Vert4::vector(-1., 2., -3.)))
}

#[test]
fn vector_unit_1() {
    let v = Vector::<f32>::unit(0);
    assert!(v.mag_squared().sqrt() == 1.0);

    let v = vector(4.0, 0.0, 0.0);
    let norm = v.norm_by(v.mag_squared().sqrt());
    assert!(norm.ehh_maybe(&vector(1.0, 0.0, 0.0)));
}

#[test]
fn vector_unit_2() {
    let v = Vector::<f32>::unit(1);
    assert!(v.mag_squared().sqrt() == 1.0);

    let v = vector(1.0, 2.0, 3.0);
    let norm = v.norm_by(v.mag_squared().sqrt());
    assert!(norm.ehh_maybe(&vector(0.26726, 0.53452, 0.80178)))
}

#[test]
fn vector_unit_3() {
    let v = Vector::<f32>::unit(2);
    assert!(v.mag_squared().sqrt() == 1.0);

    let v = vector(1.0, 2.0, 3.0);
    let norm = v.norm_by(v.mag_squared().sqrt());
    assert!(geometry::scalar::float_almost_eq(&norm.mag_squared().sqrt(), &1.0));
}

#[test]
fn vector_unit_4() {
    let v = vector(1.0, 2.0, 3.0);
    assert!(v.mag_squared().sqrt() == 14.0_f32.sqrt());
}

#[test]
fn vector_unit_5() {
    let v = vector(-1.0, -2.0, -3.0);
    assert!(v.mag_squared().sqrt() == 14.0_f32.sqrt());
}

#[test]
fn points_and_vectors_combine_by_their_roles() {
    let p = Point::<f32>::new(3.0, 2.0, 1.0);
    let q = Point::<f32>::new(5.0, 6.0, 7.0);
    let v = vector(5.0, 6.0, 7.0);
    assert!(p.is_point() && !p.is_vector());
    assert_eq!((p.x(), p.y()), (3.0, 2.0));
    assert_eq!((p - q).0 .0, [-2.0, -4.0, -6.0, 0.0]);
    assert_eq!((p - v).0 .0, [-2.0, -4.0, -6.0, 1.0]);
    assert_eq!((p + v).0 .0, [8.0, 8.0, 8.0, 1.0]);
    assert_eq!((v + v).0 .0, [10.0, 12.0, 14.0, 0.0]);
    assert_eq!((v / 2.0).0 .0, [2.5, 3.0, 3.5, 0.0]);
    assert!(p.ehh_maybe(&Point::new(3.0, 2.00001, 1.0)));
    assert!(!p.ehh_maybe(&q));
    assert!(p.eq_vertex(&Tuple::new(3.0, 2.0, 1.0, 1.0)));
    let mut n = vector(0.0, 3.0, 4.0);
    assert_eq!(n.mag_squared(), 25.0);
    n.norm_assign_by(5.0);
    assert_eq!(n.0 .0, [0.0, 0.6, 0.8, 0.0]);
    assert_eq!(tuple_type(&tuple(1.0, 2.0, 3.0, 1.0)), TupleType::Point);
    assert_eq!(tuple_type(&tuple(1.0, 2.0, 3.0, 0.0)), TupleType::Vector);
}

#[test]
fn quaternion_parts() {
    let q: Quaternion<f32> = from_array([1.0, 2.0, 3.0, 4.0]);
    assert_eq!(scalar_of(&q), 1.0);
    assert_eq!(x_of(&q), 2.0);
    assert_eq!(y_of(&q), 3.0);
    assert_eq!(z_of(&q), 4.0);
    assert_eq!(to_array(with_scalar_of(q, 9.0)), [9.0, 2.0, 3.0, 4.0]);
    assert_eq!(to_array(with_x_of(q, 9.0)), [1.0, 9.0, 3.0, 4.0]);
    assert_eq!(to_array(with_y_of(q, 9.0)), [1.0, 2.0, 9.0, 4.0]);
    assert_eq!(to_array(with_z_of(q, 9.0)), [1.0, 2.0, 3.0, 9.0]);
    assert_eq!(to_array(geometry::quaternion::default::<f32>()), [0.0; 4]);
    assert_eq!(to_array(geometry::quaternion::default::<u8>()), [0; 4]);
}

#[test]
fn quaternion_arithmetic() {
    let q: Quaternion<f32> = from_array([1.0, 2.0, 3.0, 4.0]);
    let r: Quaternion<f32> = from_array([5.0, 6.0, 7.0, 8.0]);
    assert_eq!(to_array(q.add(r)), [6.0, 8.0, 10.0, 12.0]);
    assert_eq!(to_array(r.sub(q)), [4.0, 4.0, 4.0, 4.0]);
    assert_eq!(to_array(q.add_scalar(1.0)), [2.0, 3.0, 4.0, 5.0]);
    assert_eq!(to_array(q.sub_scalar(1.0)), [0.0, 1.0, 2.0, 3.0]);
    assert_eq!(to_array(q.scale(2.0)), [2.0, 4.0, 6.0, 8.0]);
    assert_eq!(to_array(q.mul(r)), [-60.0, 12.0, 30.0, 24.0]);
    let i: Quaternion<f32> = from_array([0.0, 1.0, 0.0, 0.0]);
    let j: Quaternion<f32> = from_array([0.0, 0.0, 1.0, 0.0]);
    assert_eq!(to_array(i.mul(j)), [0.0, 0.0, 0.0, 1.0]);
    assert_eq!(to_array(j.mul(i)), [0.0, 0.0, 0.0, -1.0]);
    assert_eq!(to_array(i.mul(i)), [-1.0, 0.0, 0.0, 0.0]);
}
