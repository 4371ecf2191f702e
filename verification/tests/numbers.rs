use approx::{AbsDiffEq, RelativeEq, UlpsEq};
use cglinalg::angle::Radians;
use cglinalg::complex::Complex;
use cglinalg::euler::EulerAngles;
use cglinalg::isometry::{Isometry2, Isometry3};
use cglinalg::matrix::{Matrix2x2, Matrix3x3, Matrix4x4};
use cglinalg::modular::Mod7;
use cglinalg::point::{Point2, Point3};
use cglinalg::rotation::{Rotation2, Rotation3};
use cglinalg::scalar::{Scalar, ScalarFloat, ScalarSigned};
use cglinalg::similarity::{Similarity2, Similarity3};
use cglinalg::affine::{Reflection2, Reflection3, Shear2, Shear3};
use cglinalg::transform::{AffineTransformation2D, AffineTransformation3D, Transform2D};
use cglinalg::translation::{Translation2, Translation3};
use cglinalg::unit::Unit;
use cglinalg::vector::{Vector2, Vector3, Vector4};
use core::f64;

/// Double-precision numbers as scalars of the library.
#[derive(Clone, Copy, Debug, PartialEq)]
struct R(f64);

impl Scalar for R {
    fn zero_value() -> Self {
        R(0.0)
    }

    fn one_value() -> Self {
        R(1.0)
    }

    fn plus(self, rhs: Self) -> Self {
        R(self.0 + rhs.0)
    }

    fn minus(self, rhs: Self) -> Self {
        R(self.0 - rhs.0)
    }

    fn times(self, rhs: Self) -> Self {
        R(self.0 * rhs.0)
    }

    fn over(self, rhs: Self) -> Self {
        R(self.0 / rhs.0)
    }

    fn vanishes(self) -> bool {
        self.0 == 0.0
    }

    fn zero() -> Self {
        R(0.0)
    }

    fn one() -> Self {
        R(1.0)
    }

    fn add(self, rhs: Self) -> Self {
        R(self.0 + rhs.0)
    }

    fn sub(self, rhs: Self) -> Self {
        R(self.0 - rhs.0)
    }

    fn mul(self, rhs: Self) -> Self {
        R(self.0 * rhs.0)
    }

    fn div(self, rhs: Self) -> Self {
        R(self.0 / rhs.0)
    }

    fn is_zero(self) -> bool {
        self.0 == 0.0
    }
}

impl ScalarSigned for R {
    fn negated(self) -> Self {
        R(-self.0)
    }

    fn neg(self) -> Self {
        R(-self.0)
    }
}

impl ScalarFloat for R {
    fn root(self) -> Self {
        R(self.0.sqrt())
    }

    fn sine(self) -> Self {
        R(self.0.sin())
    }

    fn cosine(self) -> Self {
        R(self.0.cos())
    }

    fn arctangent2(self, rhs: Self) -> Self {
        R(self.0.atan2(rhs.0))
    }

    fn exponential(self) -> Self {
        R(self.0.exp())
    }

    fn logarithm(self) -> Self {
        R(self.0.ln())
    }

    fn near(self, other: Self, epsilon: Self) -> bool {
        f64::abs_diff_eq(&self.0, &other.0, epsilon.0)
    }

    fn near_relative(self, other: Self, epsilon: Self, max_relative: Self) -> bool {
        f64::relative_eq(&self.0, &other.0, epsilon.0, max_relative.0)
    }

    fn near_ulps(self, other: Self, epsilon: Self, max_ulps: u32) -> bool {
        f64::ulps_eq(&self.0, &other.0, epsilon.0, max_ulps)
    }

    fn sqrt(self) -> Self {
        R(self.0.sqrt())
    }

    fn sin(self) -> Self {
        R(self.0.sin())
    }

    fn cos(self) -> Self {
        R(self.0.cos())
    }

    fn atan2(self, rhs: Self) -> Self {
        R(self.0.atan2(rhs.0))
    }

    fn exp(self) -> Self {
        R(self.0.exp())
    }

    fn ln(self) -> Self {
        R(self.0.ln())
    }

    fn abs_diff_eq(self, other: Self, epsilon: Self) -> bool {
        f64::abs_diff_eq(&self.0, &other.0, epsilon.0)
    }

    fn relative_eq(self, other: Self, epsilon: Self, max_relative: Self) -> bool {
        f64::relative_eq(&self.0, &other.0, epsilon.0, max_relative.0)
    }

    fn ulps_eq(self, other: Self, epsilon: Self, max_ulps: u32) -> bool {
        f64::ulps_eq(&self.0, &other.0, epsilon.0, max_ulps)
    }
}

fn close(a: R, b: R, epsilon: f64) -> bool {
    f64::relative_eq(&a.0, &b.0, epsilon, f64::default_max_relative())
}

fn m(i: u64) -> Mod7 {
    Mod7::new(i)
}

fn quarter_turn_like() -> Rotation2<Mod7> {
    // Modulo seven, 2 * 2 + 2 * 2 = 1: the point (2, 2) is on the unit circle.
    Rotation2::from_matrix_unchecked(Matrix2x2::new(m(2), m(2), m(2).neg(), m(2)))
}

fn spatial_rotation() -> Rotation3<Mod7> {
    let about_z = Rotation3::from_matrix_unchecked(Matrix3x3::new(
        m(2), m(2), m(0),
        m(5), m(2), m(0),
        m(0), m(0), m(1),
    ));
    let about_x = Rotation3::from_matrix_unchecked(Matrix3x3::new(
        m(1), m(0), m(0),
        m(0), m(2), m(2),
        m(0), m(5), m(2),
    ));
    about_z.mul(&about_x)
}

#[test]
fn mod7_arithmetic_is_arithmetic_of_remainders() {
    assert_eq!(m(3).add(m(5)), m(1));
    assert_eq!(m(2).sub(m(5)), m(4));
    assert_eq!(m(3).mul(m(5)), m(1));
    assert_eq!(m(3).div(m(5)), m(2));
    assert_eq!(m(3).div(m(0)), m(0));
    assert_eq!(m(3).neg(), m(4));
    assert_eq!(m(0).neg(), m(0));
    assert_eq!(m(23), Mod7::Two);
    assert_eq!(m(23).value(), 2);
    assert_eq!(Mod7::Six.value(), 6);
    assert_eq!(Mod7::zero(), Mod7::Zero);
    assert_eq!(Mod7::one(), Mod7::One);
    assert!(m(7).is_zero());
    assert!(!m(8).is_zero());
    for i in 1..7 {
        assert_eq!(m(i).mul(m(i).recip()), m(1));
        assert_eq!(m(i).div(m(i)), m(1));
        assert_eq!(m(i).add(m(i).neg()), m(0));
    }
    assert_eq!(m(0).recip(), m(0));
}

#[test]
fn exact_rotation_composed_with_its_inverse_is_the_identity() {
    let rotation = quarter_turn_like();

    assert_eq!(rotation.inverse().mul(&rotation), Rotation2::identity());
    assert_eq!(rotation.mul(&rotation.inverse()), Rotation2::identity());

    let rotation = spatial_rotation();

    assert_eq!(rotation.inverse().mul(&rotation), Rotation3::identity());
    assert_eq!(rotation.mul(&rotation.inverse()), Rotation3::identity());
}

#[test]
fn exact_isometry_inverse_undoes_the_isometry() {
    let isometry = Isometry2::from_parts(&Translation2::new(m(3), m(4)), &quarter_turn_like());
    let isometry3 = Isometry3::from_parts(&Translation3::new(m(3), m(4), m(6)), &spatial_rotation());
    for x in 0..7 {
        for y in 0..7 {
            let point = Point2::new(m(x), m(y));
            assert_eq!(isometry.inverse().transform_point(&isometry.transform_point(&point)), point);
            assert_eq!(isometry.transform_point(&isometry.inverse().transform_point(&point)), point);
            assert_eq!(isometry.inverse_transform_point(&isometry.transform_point(&point)), point);
            let point = Point3::new(m(x), m(y), m(x + 2 * y + 1));
            assert_eq!(
                isometry3.inverse().transform_point(&isometry3.transform_point(&point)),
                point
            );
        }
    }
}

#[test]
fn exact_similarity_inverse_undoes_the_similarity() {
    for scale in 1..7 {
        let similarity =
            Similarity2::from_parts(&Translation2::new(m(3), m(4)), &quarter_turn_like(), m(scale));
        let similarity3 = Similarity3::from_parts(
            &Translation3::new(m(3), m(4), m(6)),
            &spatial_rotation(),
            m(scale),
        );
        for x in 0..7 {
            let point = Point2::new(m(x), m(5));
            assert_eq!(
                similarity.inverse().transform_point(&similarity.transform_point(&point)),
                point
            );
            assert_eq!(
                similarity.inverse_transform_point(&similarity.transform_point(&point)),
                point
            );
            let point = Point3::new(m(x), m(5), m(2));
            assert_eq!(
                similarity3.inverse().transform_point(&similarity3.transform_point(&point)),
                point
            );
        }
    }
}

#[test]
fn exact_similarity_acts_on_vectors_as_scale_times_rotation() {
    let similarity =
        Similarity2::from_parts(&Translation2::new(m(3), m(4)), &quarter_turn_like(), m(3));
    let vector = Vector2::new(m(5), m(6));
    let rotated = similarity.rotation().rotate_vector(&vector);

    assert_eq!(similarity.transform_vector(&vector), rotated.mul(similarity.scale()));
}

#[test]
fn exact_composition_is_associative() {
    let a = Similarity3::from_parts(&Translation3::new(m(3), m(4), m(6)), &spatial_rotation(), m(3));
    let b = Similarity3::from_parts(
        &Translation3::new(m(1), m(0), m(5)),
        &spatial_rotation().mul(&spatial_rotation()),
        m(5),
    );
    let c = Similarity3::from_parts(
        &Translation3::new(m(2), m(2), m(1)),
        &spatial_rotation().inverse(),
        m(6),
    );

    assert_eq!(a.mul(&b).mul(&c), a.mul(&b.mul(&c)));
    assert_eq!(a.isometry.mul(&b.isometry).mul(&c.isometry), a.isometry.mul(&b.isometry.mul(&c.isometry)));
    assert_eq!(
        a.mul_isometry(&b.isometry).mul_isometry(&c.isometry),
        a.mul_isometry(&b.isometry.mul(&c.isometry))
    );

    let a = Similarity2::from_parts(&Translation2::new(m(3), m(4)), &quarter_turn_like(), m(3));
    let b = Similarity2::from_parts(&Translation2::new(m(1), m(5)), &quarter_turn_like(), m(5));
    let c = Similarity2::from_parts(
        &Translation2::new(m(2), m(1)),
        &quarter_turn_like().inverse(),
        m(6),
    );

    assert_eq!(a.mul(&b).mul(&c), a.mul(&b.mul(&c)));
    assert_eq!(a.isometry.mul(&b.isometry).mul(&c.isometry), a.isometry.mul(&b.isometry.mul(&c.isometry)));
}

#[test]
fn exact_affine_matrix_acts_as_the_similarity() {
    let similarity =
        Similarity3::from_parts(&Translation3::new(m(3), m(4), m(6)), &spatial_rotation(), m(3));
    let point = Point3::new(m(1), m(2), m(5));
    let vector = Vector3::new(m(1), m(2), m(5));
    let transform = similarity.to_transform();

    assert_eq!(transform.apply_point(point), similarity.transform_point(&point));
    assert_eq!(transform.apply_vector(vector), similarity.transform_vector(&vector));
    assert_eq!(
        transform.inverse().unwrap().matrix(),
        &similarity.inverse().to_affine_matrix()
    );
}

#[test]
fn exact_matrix_inverse_is_a_two_sided_inverse() {
    let matrix = Matrix3x3::new(
        m(1), m(2), m(3),
        m(0), m(1), m(4),
        m(5), m(6), m(0),
    );
    let inverse = matrix.inverse().unwrap();

    assert_eq!(matrix.determinant(), m(1));
    assert_eq!(inverse.mul(&matrix), Matrix3x3::identity());
    assert_eq!(matrix.mul(&inverse), Matrix3x3::identity());

    let matrix = Matrix4x4::new(
        m(1), m(2), m(3), m(4),
        m(0), m(1), m(4), m(2),
        m(5), m(6), m(0), m(1),
        m(3), m(0), m(2), m(6),
    );
    let inverse = matrix.inverse().unwrap();

    assert!(!matrix.determinant().is_zero());
    assert_eq!(inverse.mul(&matrix), Matrix4x4::identity());
    assert_eq!(matrix.mul(&inverse), Matrix4x4::identity());

    let singular = Matrix4x4::new(
        m(1), m(2), m(3), m(4),
        m(2), m(4), m(6), m(1),
        m(5), m(6), m(0), m(1),
        m(3), m(0), m(2), m(6),
    );

    assert!(singular.determinant().is_zero());
    assert_eq!(singular.inverse(), None);
}

#[test]
fn matrix3_inverse_and_determinant() {
    let matrix = Matrix3x3::new(
        R(2.0), R(0.0), R(0.0),
        R(0.0), R(4.0), R(0.0),
        R(6.0), R(8.0), R(1.0),
    );

    assert_eq!(matrix.determinant(), R(8.0));
    assert_eq!(
        matrix.inverse(),
        Some(Matrix3x3::new(
            R(0.5),  R(0.0),  R(0.0),
            R(0.0),  R(0.25), R(0.0),
            R(-3.0), R(-2.0), R(1.0),
        ))
    );

    let matrix = Matrix3x3::new(
        R(1.0), R(2.0), R(3.0),
        R(4.0), R(5.0), R(6.0),
        R(7.0), R(8.0), R(10.0),
    );
    let inverse = matrix.inverse().unwrap();

    assert_eq!(matrix.determinant(), R(-3.0));
    assert!(inverse.mul(&matrix).abs_diff_eq(&Matrix3x3::identity(), R(1e-14)));

    let singular = Matrix3x3::new(
        R(1.0), R(2.0), R(3.0),
        R(4.0), R(5.0), R(6.0),
        R(7.0), R(8.0), R(9.0),
    );

    assert_eq!(singular.determinant(), R(0.0));
    assert_eq!(singular.inverse(), None);
}

#[test]
fn matrix4_inverse_and_determinant() {
    let matrix = Matrix4x4::new(
        R(1.0), R(0.0), R(2.0), R(-1.0),
        R(3.0), R(0.0), R(0.0), R(5.0),
        R(2.0), R(1.0), R(4.0), R(-3.0),
        R(1.0), R(0.0), R(5.0), R(0.0),
    );
    let inverse = matrix.inverse().unwrap();

    assert_eq!(matrix.determinant(), R(30.0));
    assert!(inverse.mul(&matrix).abs_diff_eq(&Matrix4x4::identity(), R(1e-14)));
    assert!(matrix.mul(&inverse).abs_diff_eq(&Matrix4x4::identity(), R(1e-14)));
    assert_eq!(Matrix4x4::<R>::identity().inverse(), Some(Matrix4x4::identity()));
    assert_eq!(matrix.scale(R(0.0)).inverse(), None);
}

#[test]
fn matrix_products_and_transposes() {
    let a = Matrix2x2::new(R(1.0), R(2.0), R(3.0), R(4.0));
    let b = Matrix2x2::new(R(5.0), R(6.0), R(7.0), R(8.0));

    assert_eq!(a.mul(&b), Matrix2x2::new(R(23.0), R(34.0), R(31.0), R(46.0)));
    assert_eq!(a.mul_vector(&Vector2::new(R(1.0), R(1.0))), Vector2::new(R(4.0), R(6.0)));
    assert_eq!(a.transpose(), Matrix2x2::new(R(1.0), R(3.0), R(2.0), R(4.0)));
    assert_eq!(a.determinant(), R(-2.0));
    assert_eq!(a.scale(R(2.0)), Matrix2x2::new(R(2.0), R(4.0), R(6.0), R(8.0)));
    assert_eq!(Matrix2x2::<R>::identity().mul(&a), a);

    let a = Matrix3x3::new(
        R(1.0), R(2.0), R(3.0),
        R(4.0), R(5.0), R(6.0),
        R(7.0), R(8.0), R(9.0),
    );

    assert_eq!(
        a.transpose(),
        Matrix3x3::new(
            R(1.0), R(4.0), R(7.0),
            R(2.0), R(5.0), R(8.0),
            R(3.0), R(6.0), R(9.0),
        )
    );
    assert_eq!(a.mul_vector(&Vector3::new(R(1.0), R(0.0), R(2.0))), Vector3::new(R(15.0), R(18.0), R(21.0)));
    assert_eq!(
        a.mul(&a),
        Matrix3x3::new(
            R(30.0),  R(36.0),  R(42.0),
            R(66.0),  R(81.0),  R(96.0),
            R(102.0), R(126.0), R(150.0),
        )
    );
    assert_eq!(a.mul(&Matrix3x3::identity()), a);
    assert_eq!(a.scale(R(2.0)).c2r1, R(16.0));

    let a = Matrix4x4::new(
        R(1.0),  R(2.0),  R(3.0),  R(4.0),
        R(5.0),  R(6.0),  R(7.0),  R(8.0),
        R(9.0),  R(10.0), R(11.0), R(12.0),
        R(13.0), R(14.0), R(15.0), R(16.0),
    );

    assert_eq!(a.transpose().c1r0, R(2.0));
    assert_eq!(a.transpose().c3r2, R(12.0));
    assert_eq!(
        a.mul_vector(&Vector4::new(R(1.0), R(0.0), R(0.0), R(1.0))),
        Vector4::new(R(14.0), R(16.0), R(18.0), R(20.0))
    );
    assert_eq!(a.mul(&Matrix4x4::identity()), a);
    assert_eq!(Matrix4x4::<R>::identity().mul(&a), a);
    assert_eq!(a.determinant(), R(0.0));
}

#[test]
fn vectors_and_points() {
    let u = Vector3::new(R(1.0), R(2.0), R(3.0));
    let v = Vector3::new(R(4.0), R(5.0), R(6.0));

    assert_eq!(u.add(&v), Vector3::new(R(5.0), R(7.0), R(9.0)));
    assert_eq!(v.sub(&u), Vector3::new(R(3.0), R(3.0), R(3.0)));
    assert_eq!(u.mul(R(2.0)), Vector3::new(R(2.0), R(4.0), R(6.0)));
    assert_eq!(u.div(R(2.0)), Vector3::new(R(0.5), R(1.0), R(1.5)));
    assert_eq!(u.neg(), Vector3::new(R(-1.0), R(-2.0), R(-3.0)));
    assert_eq!(u.dot(&v), R(32.0));
    assert_eq!(u.cross(&v), Vector3::new(R(-3.0), R(6.0), R(-3.0)));
    assert_eq!(Vector3::<R>::unit_x().cross(&Vector3::unit_y()), Vector3::unit_z());
    assert_eq!(u.magnitude_squared(), R(14.0));
    assert_eq!(Vector3::new(R(2.0), R(3.0), R(6.0)).magnitude(), R(7.0));
    assert_eq!(Vector3::new(R(0.0), R(3.0), R(4.0)).normalize(), Vector3::new(R(0.0), R(0.6), R(0.8)));
    assert_eq!(u.extend(R(1.0)), Vector4::new(R(1.0), R(2.0), R(3.0), R(1.0)));
    assert_eq!(u.extend(R(1.0)).contract(), u);
    assert_eq!(u.contract(), Vector2::new(R(1.0), R(2.0)));
    assert_eq!(u.extend(R(1.0)).dot(&v.extend(R(2.0))), R(34.0));

    let u = Vector2::new(R(3.0), R(4.0));
    let v = Vector2::new(R(1.0), R(2.0));

    assert_eq!(u.add(&v), Vector2::new(R(4.0), R(6.0)));
    assert_eq!(u.sub(&v), Vector2::new(R(2.0), R(2.0)));
    assert_eq!(u.mul(R(2.0)), Vector2::new(R(6.0), R(8.0)));
    assert_eq!(u.div(R(2.0)), Vector2::new(R(1.5), R(2.0)));
    assert_eq!(u.neg(), Vector2::new(R(-3.0), R(-4.0)));
    assert_eq!(u.dot(&v), R(11.0));
    assert_eq!(u.magnitude_squared(), R(25.0));
    assert_eq!(u.magnitude(), R(5.0));
    assert_eq!(u.normalize(), Vector2::new(R(0.6), R(0.8)));
    assert_eq!(u.extend(R(0.0)), Vector3::new(R(3.0), R(4.0), R(0.0)));
    assert_eq!(Vector2::<R>::zero().add(&Vector2::unit_x()).add(&Vector2::unit_y()), Vector2::new(R(1.0), R(1.0)));

    let p = Point3::new(R(1.0), R(2.0), R(3.0));
    let q = Point3::new(R(4.0), R(6.0), R(8.0));

    assert_eq!(q.sub(&p), Vector3::new(R(3.0), R(4.0), R(5.0)));
    assert_eq!(p.add(&Vector3::new(R(3.0), R(4.0), R(5.0))), q);
    assert_eq!(p.mul(R(2.0)), Point3::new(R(2.0), R(4.0), R(6.0)));
    assert_eq!(q.div(R(2.0)), Point3::new(R(2.0), R(3.0), R(4.0)));
    assert_eq!(p.to_vector(), Vector3::new(R(1.0), R(2.0), R(3.0)));
    assert_eq!(Point3::from_vector(&p.to_vector()), p);
    assert_eq!(p.to_homogeneous(), Vector4::new(R(1.0), R(2.0), R(3.0), R(1.0)));
    assert_eq!(Point3::from_homogeneous(&Vector4::new(R(2.0), R(4.0), R(6.0), R(2.0))), p);
    assert_eq!(Point3::<R>::origin().to_vector(), Vector3::zero());

    let p = Point2::new(R(1.0), R(2.0));
    let q = Point2::new(R(4.0), R(6.0));

    assert_eq!(q.sub(&p), Vector2::new(R(3.0), R(4.0)));
    assert_eq!(p.add(&Vector2::new(R(3.0), R(4.0))), q);
    assert_eq!(p.mul(R(2.0)), Point2::new(R(2.0), R(4.0)));
    assert_eq!(q.div(R(2.0)), Point2::new(R(2.0), R(3.0)));
    assert_eq!(Point2::from_vector(&p.to_vector()), p);
    assert_eq!(p.to_homogeneous(), Vector3::new(R(1.0), R(2.0), R(1.0)));
    assert_eq!(Point2::from_homogeneous(&Vector3::new(R(2.0), R(4.0), R(2.0))), p);
    assert_eq!(Point2::<R>::origin().to_vector(), Vector2::zero());
}

#[test]
fn angles_and_units() {
    let angle = Radians::new(R(1.5));

    assert_eq!(angle.value(), R(1.5));
    assert_eq!(angle, Radians(R(1.5)));

    let unit = Unit::from_value(Vector3::new(R(0.0), R(3.0), R(4.0)));

    assert_eq!(unit.into_inner(), Vector3::new(R(0.0), R(0.6), R(0.8)));
    assert_eq!(
        Unit::from_value_unchecked(Vector3::new(R(0.0), R(3.0), R(4.0))).into_inner(),
        Vector3::new(R(0.0), R(3.0), R(4.0))
    );
}

#[test]
fn euler_angles_give_the_product_of_axis_rotations() {
    let roll = Radians(R(f64::consts::FRAC_PI_6));
    let yaw = Radians(R(f64::consts::FRAC_PI_4));
    let pitch = Radians(R(f64::consts::FRAC_PI_3));
    let euler_angles = EulerAngles::new(roll, yaw, pitch);
    let frac_1_sqrt_2 = 1_f64 / f64::sqrt(2_f64);
    let frac_1_2 = 1_f64 / 2_f64;
    let frac_sqrt_3_2 = f64::sqrt(3_f64) / 2_f64;
    let expected = Matrix3x3::new(
        R(frac_1_sqrt_2 * frac_1_2),
        R(frac_sqrt_3_2 * frac_sqrt_3_2 + frac_1_2 * frac_1_sqrt_2 * frac_1_2),
        R(frac_1_2 * frac_sqrt_3_2 - frac_sqrt_3_2 * frac_1_sqrt_2 * frac_1_2),
        R(-frac_1_sqrt_2 * frac_sqrt_3_2),
        R(frac_sqrt_3_2 * frac_1_2 - frac_1_2 * frac_1_sqrt_2 * frac_sqrt_3_2),
        R(frac_1_2 * frac_1_2 + frac_sqrt_3_2 * frac_1_sqrt_2 * frac_sqrt_3_2),
        R(frac_1_sqrt_2),
        R(-frac_1_2 * frac_1_sqrt_2),
        R(frac_sqrt_3_2 * frac_1_sqrt_2),
    );
    let result = Matrix3x3::from_euler_angles(&euler_angles);

    assert!(result.relative_eq(&expected, R(1e-10), R(f64::EPSILON)));
    assert_eq!(euler_angles.to_matrix(), result);

    let affine = Matrix4x4::from_euler_angles(&euler_angles);

    assert_eq!(affine, euler_angles.to_affine_matrix());
    assert_eq!(affine.c1r2, result.c1r2);
    assert_eq!(affine.c2r0, result.c2r0);
    assert_eq!(affine.c3r3, R(1.0));
    assert_eq!(affine.c3r0, R(0.0));
    assert_eq!(affine.c0r3, R(0.0));

    let about_z = Rotation3::from_axis_angle(&Unit::from_value(Vector3::unit_z()), pitch);
    let about_y = Rotation3::from_axis_angle(&Unit::from_value(Vector3::unit_y()), yaw);
    let about_x = Rotation3::from_axis_angle(&Unit::from_value(Vector3::unit_x()), roll);

    assert!(about_x.mul(&about_y).mul(&about_z).matrix().abs_diff_eq(&result, R(1e-15)));
}

#[test]
fn complex_arithmetic() {
    let z = Complex::new(R(3.0), R(4.0));
    let w = Complex::new(R(1.0), R(-2.0));

    assert_eq!(z.shape(), (2, 1));
    assert_eq!(z.add(w), Complex::new(R(4.0), R(2.0)));
    assert_eq!(z.sub(w), Complex::new(R(2.0), R(6.0)));
    assert_eq!(z.mul(w), Complex::new(R(11.0), R(-2.0)));
    assert_eq!(z.add_real(R(1.0)), Complex::new(R(4.0), R(4.0)));
    assert_eq!(z.sub_real(R(1.0)), Complex::new(R(2.0), R(4.0)));
    assert_eq!(z.conjugate(), Complex::new(R(3.0), R(-4.0)));
    assert_eq!(z.scale(R(2.0)), Complex::new(R(6.0), R(8.0)));
    assert_eq!(z.unscale(R(2.0)), Complex::new(R(1.5), R(2.0)));
    assert_eq!(z.magnitude_squared(), R(25.0));
    assert_eq!(z.magnitude(), R(5.0));
    assert_eq!(z.inverse(), Complex::new(R(3.0 / 25.0), R(-4.0 / 25.0)));
    assert_eq!(Complex::new(R(0.0), R(2.0)).inverse(), Complex::new(R(0.0), R(-0.5)));
    assert_eq!(Complex::<R>::i().mul(Complex::i()), Complex::new(R(-1.0), R(0.0)));
    assert_eq!(Complex::from_real(R(2.0)), Complex::new(R(2.0), R(0.0)));
    assert_eq!(Complex::from_imaginary(R(2.0)), Complex::new(R(0.0), R(2.0)));
    assert_eq!(Complex::<R>::zero().add(z), z);
    assert_eq!(Complex::<R>::identity().mul(z), z);
}

#[test]
fn complex_polar_form_and_elementary_functions() {
    let z = Complex::new(R(0.0), R(2.0));

    assert_eq!(z.arg(), R(f64::consts::FRAC_PI_2));
    assert_eq!(z.polar_decomposition(), (R(2.0), Radians(R(f64::consts::FRAC_PI_2))));

    let z = Complex::from_polar_decomposition(R(2.0), Radians(R(f64::consts::FRAC_PI_3)));

    assert!(close(z.re, R(1.0), 1e-15));
    assert!(close(z.im, R(f64::sqrt(3.0)), 1e-15));

    let z = Complex::from_angle(Radians(R(f64::consts::PI)));

    assert!(close(z.re, R(-1.0), 1e-15));
    assert!(close(z.im, R(0.0), 1e-15));

    let z = Complex::new(R(0.0), R(f64::consts::PI)).exp();

    assert!(close(z.re, R(-1.0), 1e-15));
    assert!(close(z.im, R(0.0), 1e-15));

    let z = Complex::new(R(1.0), R(0.0)).exp();

    assert_eq!(z, Complex::new(R(f64::consts::E), R(0.0)));

    let z = Complex::new(R(-f64::consts::E), R(0.0)).ln();

    assert!(close(z.re, R(1.0), 1e-15));
    assert!(close(z.im, R(f64::consts::PI), 1e-15));

    let z = Complex::new(R(3.0), R(4.0)).sqrt();

    assert!(close(z.re, R(2.0), 1e-15));
    assert!(close(z.im, R(1.0), 1e-15));

    let z = Complex::new(R(-4.0), R(0.0)).sqrt();

    assert!(close(z.re, R(0.0), 1e-15));
    assert!(close(z.im, R(2.0), 1e-15));
}

#[test]
fn matrix2_inverse_and_determinant() {
    let matrix = Matrix2x2::new(R(4.0), R(2.0), R(7.0), R(6.0));

    assert_eq!(matrix.determinant(), R(10.0));
    assert_eq!(
        matrix.inverse(),
        Some(Matrix2x2::new(R(0.6000000000000001), R(-0.2), R(-0.7000000000000001), R(0.4)))
    );
    assert!(matrix.inverse().unwrap().mul(&matrix).abs_diff_eq(&Matrix2x2::identity(), R(1e-15)));
    assert_eq!(Matrix2x2::new(R(1.0), R(2.0), R(2.0), R(4.0)).inverse(), None);

    let matrix = Matrix2x2::new(m(4), m(2), m(0), m(6));
    let inverse = matrix.inverse().unwrap();

    assert_eq!(inverse.mul(&matrix), Matrix2x2::identity());
    assert_eq!(matrix.mul(&inverse), Matrix2x2::identity());
    assert_eq!(Matrix2x2::new(m(1), m(2), m(3), m(6)).inverse(), None);
}

#[test]
fn exact_rotations_have_determinant_one() {
    let rotation = spatial_rotation();
    let twice = rotation.mul(&rotation);

    assert_eq!(rotation.matrix().determinant(), m(1));
    assert_eq!(twice.matrix().determinant(), m(1));
    assert_eq!(twice.inverse().mul(&twice), Rotation3::identity());
    assert_eq!(rotation.matrix().transpose().mul(rotation.matrix()), Matrix3x3::identity());
    assert_eq!(quarter_turn_like().matrix().determinant(), m(1));
    assert_eq!(quarter_turn_like().mul(&quarter_turn_like()).matrix().determinant(), m(1));
}

#[test]
fn exact_reflection_is_its_own_inverse() {
    // Modulo seven (2, 2) has length one, 4 + 4 = 8, and so has (2, 3, 3),
    // 4 + 9 + 9 = 22.
    let reflection = Reflection2::from_normal(Vector2::new(m(2), m(2)));

    assert_eq!(reflection.matrix().mul(reflection.matrix()), Matrix3x3::identity());
    assert_eq!(reflection.matrix().determinant(), m(1).neg());

    let reflection = Reflection3::from_normal(Vector3::new(m(2), m(3), m(3)));

    assert_eq!(reflection.matrix().mul(reflection.matrix()), Matrix4x4::identity());
    assert_eq!(reflection.matrix().determinant(), m(1).neg());
}

#[test]
fn exact_shears_have_determinant_one() {
    for a in 0..7 {
        assert_eq!(Shear2::from_shear_x(m(a)).matrix().determinant(), m(1));
        assert_eq!(Shear2::from_shear_y(m(a)).matrix().determinant(), m(1));
        for b in 0..7 {
            assert_eq!(Shear3::from_shear_x(m(a), m(b)).matrix().determinant(), m(1));
            assert_eq!(Shear3::from_shear_y(m(a), m(b)).matrix().determinant(), m(1));
            assert_eq!(Shear3::from_shear_z(m(a), m(b)).matrix().determinant(), m(1));
        }
    }
}

#[test]
fn exact_transform_composition_applies_in_turn() {
    let a = Similarity2::from_parts(&Translation2::new(m(3), m(4)), &quarter_turn_like(), m(3))
        .to_transform();
    let b = Shear2::from_vector(Vector2::new(m(2), m(5))).to_transform2d();
    let point = Point2::new(m(6), m(1));
    let vector = Vector2::new(m(6), m(1));
    let composed = a.mul(&b);

    assert_eq!(composed.apply_point(point), a.apply_point(b.apply_point(point)));
    assert_eq!(composed.apply_vector(vector), a.apply_vector(b.apply_vector(vector)));
    assert_eq!(composed.matrix().c0r2, m(0));
    assert_eq!(composed.matrix().c1r2, m(0));
    assert_eq!(composed.matrix().c2r2, m(1));

    let inverse = composed.inverse().unwrap();

    assert_eq!(inverse.apply_point(composed.apply_point(point)), point);
    assert_eq!(inverse.mul(&composed), <Transform2D<Mod7> as AffineTransformation2D<Mod7>>::identity());
    assert_eq!(composed.mul(&inverse), <Transform2D<Mod7> as AffineTransformation2D<Mod7>>::identity());
}

#[test]
fn exact_determinant_of_a_product_is_the_product_of_determinants() {
    let a = Matrix3x3::new(
        m(1), m(2), m(3),
        m(0), m(1), m(4),
        m(5), m(6), m(0),
    );
    let b = Matrix3x3::new(
        m(2), m(0), m(1),
        m(3), m(3), m(4),
        m(6), m(5), m(2),
    );

    assert_eq!(a.mul(&b).determinant(), a.determinant().mul(b.determinant()));
    assert_eq!(a.transpose().determinant(), a.determinant());

    let a = Matrix2x2::new(m(1), m(2), m(3), m(5));
    let b = Matrix2x2::new(m(4), m(6), m(0), m(3));

    assert_eq!(a.mul(&b).determinant(), a.determinant().mul(b.determinant()));
}

#[test]
fn complex_operators() {
    let z = Complex::new(R(3.0), R(4.0));
    let w = Complex::new(R(1.0), R(-2.0));

    assert_eq!(z + w, Complex::new(R(4.0), R(2.0)));
    assert_eq!(z - w, Complex::new(R(2.0), R(6.0)));
    assert_eq!(z * w, Complex::new(R(11.0), R(-2.0)));
    assert_eq!(z + R(1.0), Complex::new(R(4.0), R(4.0)));
    assert_eq!(z - R(1.0), Complex::new(R(2.0), R(4.0)));
}
