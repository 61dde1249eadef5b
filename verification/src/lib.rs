//! Fixed-size vertices and square matrices over a generic scalar, with the
//! matrix algebra behind affine transforms: transpose, submatrix, minor,
//! cofactor, determinant, inverse and the products.
//!
//! The executable functions state what they compute over the views of their
//! arguments, in the scalar's own arithmetic. The modules `laws`, `laplace`
//! and `ring` hold what is proved of the algebra as a whole.

pub mod determinant;
pub mod inverse;
pub mod laplace;
pub mod laws;
pub mod matrix;
pub mod multiply;
pub mod point;
pub mod quaternion;
pub mod ring;
pub mod scalar;
pub mod submatrix;
pub mod transform;
pub mod vertex;

pub use matrix::{Mat2, Mat3, Mat4, Matr2, Matr3, Matr4};
pub use point::{Point, Pointlike, Tuple, TupleType, Vector};
pub use quaternion::Quaternion;
pub use scalar::{Scalar, SortaEq};
pub use transform::{
    clock, Axis, RotationAbout, RotationAxes, ShearOf, ShearingProportion, TranslationMatrix, X, Y,
    Z,
};
pub use vertex::{Vert2, Vert3, Vert4};
