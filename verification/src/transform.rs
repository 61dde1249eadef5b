//! The matrices of the affine transforms: translation, scaling, rotation
//! about an axis and shearing.
//!
//! A rotation is given by the cosine and the sine of its angle, so that the
//! matrix is stated for every pair of scalars.

use crate::matrix::Matr4;
use crate::multiply::{applied4, applied4_defined};
use crate::scalar::{num, specified, Scalar};
use crate::vertex::Vert4;
use core::marker::PhantomData;
use vstd::prelude::*;
use vstd::std_specs::ops::NegSpec;

verus! {

/// An axis of space, with the two other axes in their order.
pub trait Axis {
    type Primary;

    type Secondary;
}

/// The x axis.
pub struct X;

/// The y axis.
pub struct Y;

/// The z axis.
pub struct Z;

impl Axis for X {
    type Primary = Y;

    type Secondary = Z;
}

impl Axis for Y {
    type Primary = X;

    type Secondary = Z;
}

impl Axis for Z {
    type Primary = X;

    type Secondary = Y;
}

/// The cosine and sine of a rotation in the plane of the axes `P` and `S`.
pub struct RotationAxes<T, P, S> {
    pub cos: T,
    pub sin: T,
    pub axes: PhantomData<(P, S)>,
}

impl<T: Scalar, P, S> RotationAxes<T, P, S> {
    pub fn new(cos: T, sin: T) -> (r: Self)
        ensures
            r.cos == cos,
            r.sin == sin,
    {
        RotationAxes { cos, sin, axes: PhantomData }
    }
}

impl<T: Scalar> RotationAxes<T, Y, Z> {
    pub fn yy(&self) -> (r: T)
        ensures
            r == self.cos,
    {
        self.cos
    }

    pub fn yz(&self) -> (r: T)
        requires
            specified::<T>(),
            self.sin.neg_req(),
        ensures
            r == self.sin.neg_spec(),
    {
        self.sin.neg()
    }

    pub fn zy(&self) -> (r: T)
        ensures
            r == self.sin,
    {
        self.sin
    }
}

impl<T: Scalar> RotationAxes<T, X, Z> {
    pub fn xz(&self) -> (r: T)
        ensures
            r == self.sin,
    {
        self.sin
    }

    pub fn zx(&self) -> (r: T)
        requires
            specified::<T>(),
            self.sin.neg_req(),
        ensures
            r == self.sin.neg_spec(),
    {
        self.sin.neg()
    }
}

impl<T: Scalar> RotationAxes<T, X, Y> {
    pub fn yy(&self) -> (r: T)
        ensures
            r == self.cos,
    {
        self.cos
    }

    pub fn xy(&self) -> (r: T)
        requires
            specified::<T>(),
            self.sin.neg_req(),
        ensures
            r == self.sin.neg_spec(),
    {
        self.sin.neg()
    }

    pub fn yx(&self) -> (r: T)
        ensures
            r == self.sin,
    {
        self.sin
    }
}

impl<T: Scalar, S> RotationAxes<T, X, S> {
    pub fn xx(&self) -> (r: T)
        ensures
            r == self.cos,
    {
        self.cos
    }
}

impl<T: Scalar, P> RotationAxes<T, P, Z> {
    pub fn zz(&self) -> (r: T)
        ensures
            r == self.cos,
    {
        self.cos
    }
}

/// The cosine and sine of a rotation about the axis `Ax`.
pub struct RotationAbout<T, Ax> {
    pub cos: T,
    pub sin: T,
    pub rotation_axis_marker: PhantomData<Ax>,
}

impl<T: Scalar, Ax: Axis> RotationAbout<T, Ax> {
    pub fn new(cos: T, sin: T) -> (r: Self)
        ensures
            r.cos == cos,
            r.sin == sin,
    {
        RotationAbout { cos, sin, rotation_axis_marker: PhantomData }
    }

    /// The same rotation, seen in the plane of the two other axes.
    pub fn into_axes(self) -> (r: RotationAxes<T, Ax::Primary, Ax::Secondary>)
        ensures
            r.cos == self.cos,
            r.sin == self.sin,
    {
        RotationAxes::new(self.cos, self.sin)
    }
}

/// How far one axis moves in proportion to the axis `Ax`.
pub struct ShearOf<T, Ax>(pub T, pub PhantomData<Ax>);

impl<T, Ax: Axis> ShearOf<T, Ax> {
    pub fn new(value: T) -> (r: ShearOf<T, Ax>)
        ensures
            r.0 == value,
    {
        ShearOf(value, PhantomData)
    }
}

/// How far the axis `Ax` moves in proportion to each of the two other axes.
pub struct ShearingProportion<T, Ax: Axis> {
    pub ratio_to_primary: ShearOf<T, Ax::Primary>,
    pub ratio_to_secondary: ShearOf<T, Ax::Secondary>,
    pub axis_marker: PhantomData<Ax>,
}

impl<T: Scalar, Ax: Axis> ShearingProportion<T, Ax> where Ax::Primary: Axis, Ax::Secondary: Axis {
    pub fn new(to_primary: T, to_secondary: T) -> (r: Self)
        ensures
            r.ratio_to_primary.0 == to_primary,
            r.ratio_to_secondary.0 == to_secondary,
    {
        ShearingProportion {
            ratio_to_primary: ShearOf::new(to_primary),
            ratio_to_secondary: ShearOf::new(to_secondary),
            axis_marker: PhantomData,
        }
    }

    /// No shearing: both proportions are zero.
    pub fn default() -> (r: Self)
        requires
            specified::<T>(),
        ensures
            r.ratio_to_primary.0 == num::<T>(0),
            r.ratio_to_secondary.0 == num::<T>(0),
    {
        ShearingProportion::new(T::from(0i8), T::from(0i8))
    }
}

/// The translation by `(tx, ty, tz)`.
pub open spec fn translation_seq<T: Scalar>(tx: T, ty: T, tz: T) -> Seq<T> {
    let o = num::<T>(1);
    let z = num::<T>(0);
    seq![o, z, z, tx, z, o, z, ty, z, z, o, tz, z, z, z, o]
}

/// The scaling by `sx`, `sy` and `sz` along the three axes.
pub open spec fn scaling_seq<T: Scalar>(sx: T, sy: T, sz: T) -> Seq<T> {
    let o = num::<T>(1);
    let z = num::<T>(0);
    seq![sx, z, z, z, z, sy, z, z, z, z, sz, z, z, z, z, o]
}

/// The rotation about the x axis with cosine `cos` and sine `sin`.
pub open spec fn rotation_x_seq<T: Scalar>(cos: T, sin: T) -> Seq<T> {
    let o = num::<T>(1);
    let z = num::<T>(0);
    seq![o, z, z, z, z, cos, sin.neg_spec(), z, z, sin, cos, z, z, z, z, o]
}

/// The rotation about the y axis with cosine `cos` and sine `sin`.
pub open spec fn rotation_y_seq<T: Scalar>(cos: T, sin: T) -> Seq<T> {
    let o = num::<T>(1);
    let z = num::<T>(0);
    seq![cos, z, sin, z, z, o, z, z, sin.neg_spec(), z, cos, z, z, z, z, o]
}

/// The rotation about the z axis with cosine `cos` and sine `sin`.
pub open spec fn rotation_z_seq<T: Scalar>(cos: T, sin: T) -> Seq<T> {
    let o = num::<T>(1);
    let z = num::<T>(0);
    seq![cos, sin.neg_spec(), z, z, sin, cos, z, z, z, z, o, z, z, z, z, o]
}

/// The shearing that moves x by `xy` per y and `xz` per z, y by `yx` per x and
/// `yz` per z, and z by `zx` per x and `zy` per y.
pub open spec fn shearing_seq<T: Scalar>(xy: T, xz: T, yx: T, yz: T, zx: T, zy: T) -> Seq<T> {
    let o = num::<T>(1);
    let z = num::<T>(0);
    seq![o, xy, xz, z, yx, o, yz, z, zx, zy, o, z, z, z, z, o]
}

impl<T: Scalar> Matr4<T> {
    /// The identity with `tx`, `ty`, `tz` in the first three rows of the
    /// fourth column.
    pub fn translation(tx: T, ty: T, tz: T) -> (m: Matr4<T>)
        requires
            specified::<T>(),
        ensures
            m@ =~= translation_seq(tx, ty, tz),
    {
        let o: T = T::from(1i8);
        let z: T = T::from(0i8);
        Matr4([o, z, z, tx, z, o, z, ty, z, z, o, tz, z, z, z, o])
    }

    /// The diagonal matrix of `sx`, `sy`, `sz` and one.
    pub fn scaling(sx: T, sy: T, sz: T) -> (m: Matr4<T>)
        requires
            specified::<T>(),
        ensures
            m@ =~= scaling_seq(sx, sy, sz),
    {
        let o: T = T::from(1i8);
        let z: T = T::from(0i8);
        Matr4([sx, z, z, z, z, sy, z, z, z, z, sz, z, z, z, z, o])
    }

    /// The rotation about the x axis by the angle whose cosine is `cos` and
    /// whose sine is `sin`.
    pub fn rotation_x(cos: T, sin: T) -> (m: Matr4<T>)
        requires
            specified::<T>(),
            sin.neg_req(),
        ensures
            m@ =~= rotation_x_seq(cos, sin),
    {
        let rotation: RotationAbout<T, X> = RotationAbout::new(cos, sin);
        let axes = rotation.into_axes();
        let o: T = T::from(1i8);
        let z: T = T::from(0i8);
        Matr4([o, z, z, z, z, axes.yy(), axes.yz(), z, z, axes.zy(), axes.zz(), z, z, z, z, o])
    }

    /// The rotation about the y axis by the angle whose cosine is `cos` and
    /// whose sine is `sin`.
    pub fn rotation_y(cos: T, sin: T) -> (m: Matr4<T>)
        requires
            specified::<T>(),
            sin.neg_req(),
        ensures
            m@ =~= rotation_y_seq(cos, sin),
    {
        let rotation: RotationAbout<T, Y> = RotationAbout::new(cos, sin);
        let axes = rotation.into_axes();
        let o: T = T::from(1i8);
        let z: T = T::from(0i8);
        Matr4([axes.xx(), z, axes.xz(), z, z, o, z, z, axes.zx(), z, axes.zz(), z, z, z, z, o])
    }

    /// The rotation about the z axis by the angle whose cosine is `cos` and
    /// whose sine is `sin`.
    pub fn rotation_z(cos: T, sin: T) -> (m: Matr4<T>)
        requires
            specified::<T>(),
            sin.neg_req(),
        ensures
            m@ =~= rotation_z_seq(cos, sin),
    {
        let rotation: RotationAbout<T, Z> = RotationAbout::new(cos, sin);
        let axes = rotation.into_axes();
        let o: T = T::from(1i8);
        let z: T = T::from(0i8);
        Matr4([axes.xx(), axes.xy(), z, z, axes.yx(), axes.yy(), z, z, z, z, o, z, z, z, z, o])
    }

    /// The identity with the six proportions off the diagonal of its first
    /// three rows.
    pub fn shearing(
        x: ShearingProportion<T, X>,
        y: ShearingProportion<T, Y>,
        z: ShearingProportion<T, Z>,
    ) -> (m: Matr4<T>)
        requires
            specified::<T>(),
        ensures
            m@ =~= shearing_seq(
                x.ratio_to_primary.0,
                x.ratio_to_secondary.0,
                y.ratio_to_primary.0,
                y.ratio_to_secondary.0,
                z.ratio_to_primary.0,
                z.ratio_to_secondary.0,
            ),
    {
        let xy = x.ratio_to_primary.0;
        let xz = x.ratio_to_secondary.0;
        let yx = y.ratio_to_primary.0;
        let yz = y.ratio_to_secondary.0;
        let zx = z.ratio_to_primary.0;
        let zy = z.ratio_to_secondary.0;
        let o: T = T::from(1i8);
        let n: T = T::from(0i8);
        Matr4([o, xy, xz, n, yx, o, yz, n, zx, zy, o, n, n, n, n, o])
    }
}

/// A translation, kept apart from other matrices.
pub struct TranslationMatrix<T>(pub Matr4<T>);

impl<T: Scalar> TranslationMatrix<T> {
    pub fn new(x: T, y: T, z: T) -> (t: TranslationMatrix<T>)
        requires
            specified::<T>(),
        ensures
            t.0@ =~= translation_seq(x, y, z),
    {
        TranslationMatrix(Matr4::translation(x, y, z))
    }

    /// The matrix of the translation.
    pub fn matrix(&self) -> (m: &Matr4<T>)
        ensures
            *m == self.0,
    {
        &self.0
    }
}

/// The twelve positions of the hours on a clock face: `twelve` turned about
/// the y axis by each of the twelve rotations of `turns`, given as pairs of
/// cosine and sine.
pub fn clock<T: Scalar>(twelve: Vert4<T>, turns: &[(T, T); 12]) -> (hours: Vec<Vert4<T>>)
    requires
        specified::<T>(),
        forall|i: int|
            0 <= i < 12 ==> (#[trigger] turns@[i]).1.neg_req() && applied4_defined(
                rotation_y_seq(turns@[i].0, turns@[i].1),
                twelve@,
            ),
    ensures
        hours@.len() == 12,
        forall|i: int|
            0 <= i < 12 ==> (#[trigger] hours@[i])@ =~= applied4(
                rotation_y_seq(turns@[i].0, turns@[i].1),
                twelve@,
            ),
{
    let mut hours: Vec<Vert4<T>> = Vec::new();
    let mut idx: usize = 0;
    while idx < 12
        invariant
            specified::<T>(),
            forall|i: int|
                0 <= i < 12 ==> (#[trigger] turns@[i]).1.neg_req() && applied4_defined(
                    rotation_y_seq(turns@[i].0, turns@[i].1),
                    twelve@,
                ),
            idx <= 12,
            hours@.len() == idx,
            forall|i: int|
                0 <= i < idx ==> (#[trigger] hours@[i])@ =~= applied4(
                    rotation_y_seq(turns@[i].0, turns@[i].1),
                    twelve@,
                ),
        decreases 12 - idx,
    {
        let turn = turns[idx];
        let hour = Matr4::rotation_y(turn.0, turn.1) * twelve;
        hours.push(hour);
        idx += 1;
    }
    hours
}

} // verus!
