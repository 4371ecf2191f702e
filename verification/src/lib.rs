//! Low-dimensional linear algebra for computer graphics: vectors, points,
//! matrices, complex numbers, and the family of affine transformations built
//! from rotations, translations, and uniform scalings.
//!
//! Every type is generic over a scalar. The executable functions ask only for
//! the arithmetic operations of [`scalar::Scalar`] and its refinements, and
//! their contracts state the result as an expression over those operations,
//! so they hold for floating-point numbers as they are. The algebraic laws of
//! the transformations are proved for every scalar whose arithmetic is exact,
//! that is, for every [`scalar::Field`]; for floating-point numbers they hold
//! up to rounding.
//!
//! The transformations apply to a point in a fixed order: a similarity scales,
//! then rotates, then translates; a rigid motion rotates, then translates.
//! Composition and inversion respect that order.

pub mod scalar;
pub mod modular;
pub mod angle;
pub mod vector;
pub mod point;
pub mod matrix;
pub mod unit;
pub mod complex;
pub mod euler;
pub mod rotation;
pub mod translation;
pub mod isometry;
pub mod similarity;
pub mod transform;
pub mod affine;
pub mod projection;
pub mod tolerance;
pub mod operators;
pub mod algebra;
pub mod determinant;
pub mod adjugate4;
pub mod rodrigues;
pub mod reflection;

pub use affine::{Identity2, Identity3, Reflection2, Reflection3, Scale2, Scale3, Shear2, Shear3};
pub use angle::Radians;
pub use complex::Complex;
pub use euler::EulerAngles;
pub use isometry::{Isometry2, Isometry3};
pub use matrix::{Matrix2x2, Matrix3x3, Matrix4x4};
pub use modular::Mod7;
pub use point::{Point2, Point3};
pub use projection::{Orthographic3, Perspective3};
pub use rotation::{Rotation2, Rotation3};
pub use scalar::{Field, Scalar, ScalarFloat, ScalarSigned};
pub use similarity::{Similarity2, Similarity3};
pub use transform::{AffineTransformation2D, AffineTransformation3D, Transform2D, Transform3D};
pub use translation::{Translation2, Translation3};
pub use unit::Unit;
pub use vector::{Vector2, Vector3, Vector4};
