use approx::{AbsDiffEq, RelativeEq, UlpsEq};
use cglinalg::affine::{
    Identity2, Identity3, Reflection2, Reflection3, Scale2, Scale3, Shear2, Shear3,
};
use cglinalg::angle::Radians;
use cglinalg::isometry::{Isometry2, Isometry3};
use cglinalg::matrix::{Matrix2x2, Matrix3x3, Matrix4x4};
use cglinalg::point::{Point2, Point3};
use cglinalg::rotation::{Rotation2, Rotation3};
use cglinalg::scalar::{Scalar, ScalarFloat, ScalarSigned};
use cglinalg::similarity::{Similarity2, Similarity3};
use cglinalg::transform::{
    AffineTransformation2D, AffineTransformation3D, Transform2D, Transform3D,
};
use cglinalg::translation::{Translation2, Translation3};
use cglinalg::unit::Unit;
use cglinalg::vector::{Vector2, Vector3};
use core::f64;

/// Double-precision numbers as scalars of the library.
#[derive(Clone, Copy, Debug, PartialEq)]
struct R(f64);

impl Scalar for R {
    fn zero_value() -> Self {
        R(0.0)
    }

    fn one_value() -> Self {
        R(1.0)
    }

    fn plus(self, rhs: Self) -> Self {
        R(self.0 + rhs.0)
    }

    fn minus(self, rhs: Self) -> Self {
        R(self.0 - rhs.0)
    }

    fn times(self, rhs: Self) -> Self {
        R(self.0 * rhs.0)
    }

    fn over(self, rhs: Self) -> Self {
        R(self.0 / rhs.0)
    }

    fn vanishes(self) -> bool {
        self.0 == 0.0
    }

    fn zero() -> Self {
        R(0.0)
    }

    fn one() -> Self {
        R(1.0)
    }

    fn add(self, rhs: Self) -> Self {
        R(self.0 + rhs.0)
    }

    fn sub(self, rhs: Self) -> Self {
        R(self.0 - rhs.0)
    }

    fn mul(self, rhs: Self) -> Self {
        R(self.0 * rhs.0)
    }

    fn div(self, rhs: Self) -> Self {
        R(self.0 / rhs.0)
    }

    fn is_zero(self) -> bool {
        self.0 == 0.0
    }
}

impl ScalarSigned for R {
    fn negated(self) -> Self {
        R(-self.0)
    }

    fn neg(self) -> Self {
        R(-self.0)
    }
}

impl ScalarFloat for R {
    fn root(self) -> Self {
        R(self.0.sqrt())
    }

    fn sine(self) -> Self {
        R(self.0.sin())
    }

    fn cosine(self) -> Self {
        R(self.0.cos())
    }

    fn arctangent2(self, rhs: Self) -> Self {
        R(self.0.atan2(rhs.0))
    }

    fn exponential(self) -> Self {
        R(self.0.exp())
    }

    fn logarithm(self) -> Self {
        R(self.0.ln())
    }

    fn near(self, other: Self, epsilon: Self) -> bool {
        f64::abs_diff_eq(&self.0, &other.0, epsilon.0)
    }

    fn near_relative(self, other: Self, epsilon: Self, max_relative: Self) -> bool {
        f64::relative_eq(&self.0, &other.0, epsilon.0, max_relative.0)
    }

    fn near_ulps(self, other: Self, epsilon: Self, max_ulps: u32) -> bool {
        f64::ulps_eq(&self.0, &other.0, epsilon.0, max_ulps)
    }

    fn sqrt(self) -> Self {
        R(self.0.sqrt())
    }

    fn sin(self) -> Self {
        R(self.0.sin())
    }

    fn cos(self) -> Self {
        R(self.0.cos())
    }

    fn atan2(self, rhs: Self) -> Self {
        R(self.0.atan2(rhs.0))
    }

    fn exp(self) -> Self {
        R(self.0.exp())
    }

    fn ln(self) -> Self {
        R(self.0.ln())
    }

    fn abs_diff_eq(self, other: Self, epsilon: Self) -> bool {
        f64::abs_diff_eq(&self.0, &other.0, epsilon.0)
    }

    fn relative_eq(self, other: Self, epsilon: Self, max_relative: Self) -> bool {
        f64::relative_eq(&self.0, &other.0, epsilon.0, max_relative.0)
    }

    fn ulps_eq(self, other: Self, epsilon: Self, max_ulps: u32) -> bool {
        f64::ulps_eq(&self.0, &other.0, epsilon.0, max_ulps)
    }
}

fn close(a: R, b: R, epsilon: f64) -> bool {
    f64::relative_eq(&a.0, &b.0, epsilon, f64::default_max_relative())
}

fn close_v2(a: &Vector2<R>, b: &Vector2<R>, epsilon: f64) -> bool {
    close(a.x, b.x, epsilon) && close(a.y, b.y, epsilon)
}

fn close_v3(a: &Vector3<R>, b: &Vector3<R>, epsilon: f64) -> bool {
    close(a.x, b.x, epsilon) && close(a.y, b.y, epsilon) && close(a.z, b.z, epsilon)
}

fn close_p2(a: &Point2<R>, b: &Point2<R>, epsilon: f64) -> bool {
    close(a.x, b.x, epsilon) && close(a.y, b.y, epsilon)
}

fn close_p3(a: &Point3<R>, b: &Point3<R>, epsilon: f64) -> bool {
    close(a.x, b.x, epsilon) && close(a.y, b.y, epsilon) && close(a.z, b.z, epsilon)
}

fn v2(x: f64, y: f64) -> Vector2<R> {
    Vector2::new(R(x), R(y))
}

fn v3(x: f64, y: f64, z: f64) -> Vector3<R> {
    Vector3::new(R(x), R(y), R(z))
}

fn p2(x: f64, y: f64) -> Point2<R> {
    Point2::new(R(x), R(y))
}

fn p3(x: f64, y: f64, z: f64) -> Point3<R> {
    Point3::new(R(x), R(y), R(z))
}

fn degrees(value: f64) -> Radians<R> {
    Radians(R(value.to_radians()))
}

fn radians(value: f64) -> Radians<R> {
    Radians(R(value))
}

fn unit_z_axis() -> Unit<Vector3<R>> {
    Unit::from_value(Vector3::unit_z())
}

fn sample_similarity2() -> Similarity2<R> {
    let translation = Translation2::from_vector(&v2(1.0, 2.0));
    let rotation = Rotation2::from_angle(degrees(72.0));
    Similarity2::from_parts(&translation, &rotation, R(5.0))
}

fn sample_similarity3() -> Similarity3<R> {
    let translation = Translation3::from_vector(&v3(6.0, 7.0, 8.0));
    let rotation = Rotation3::from_axis_angle(&unit_z_axis(), degrees(72.0));
    Similarity3::from_parts(&translation, &rotation, R(5.0))
}

#[test]
fn similarity2_from_rotation_rotates_a_vector() {
    let rotation = Rotation2::from_angle(radians(f64::consts::FRAC_PI_4));
    let similarity = Similarity2::from_rotation(&rotation);
    let expected = v2(f64::sqrt(2.0), f64::sqrt(2.0));
    let result = similarity.transform_vector(&v2(2.0, 0.0));

    assert!(close_v2(&result, &expected, 1e-8));
}

#[test]
fn similarity3_from_rotation_rotates_a_vector() {
    let rotation = Rotation3::from_axis_angle(&unit_z_axis(), radians(f64::consts::FRAC_PI_4));
    let similarity = Similarity3::from_rotation(&rotation);
    let expected = v3(f64::sqrt(2.0), f64::sqrt(2.0), 5.0);
    let result = similarity.transform_vector(&v3(2.0, 0.0, 5.0));

    assert!(close_v3(&result, &expected, 1e-8));
}

#[test]
fn similarity2_from_scale_is_exact_on_integers() {
    let similarity = Similarity2::from_scale(R(10.0));
    let result = similarity.transform_vector(&v2(1.0, 2.0));

    assert_eq!(result, v2(10.0, 20.0));
}

#[test]
fn similarity3_from_scale_is_exact_on_integers() {
    let similarity = Similarity3::from_scale(R(15.0));
    let result = similarity.transform_vector(&v3(1.0, 2.0, 3.0));

    assert_eq!(result, v3(15.0, 30.0, 45.0));
}

#[test]
fn similarity2_from_translation_moves_a_point() {
    let translation = Translation2::new(R(1.0), R(2.0));
    let similarity = Similarity2::from_translation(&translation);

    assert_eq!(similarity.transform_point(&p2(5.0, 5.0)), p2(6.0, 7.0));
    assert_eq!(similarity.transform_vector(&v2(5.0, 5.0)), v2(5.0, 5.0));
}

#[test]
fn similarity3_from_translation_moves_a_point() {
    let distance = v3(5.0, 5.0, 5.0);
    let translation = Translation3::from_vector(&distance);
    let similarity = Similarity3::from_translation(&translation);
    let point = p3(1.0, 2.0, 3.0);

    assert_eq!(similarity.mul_point(&point), point.add(&distance));
}

#[test]
fn similarity2_from_isometry_acts_as_the_isometry() {
    let isometry =
        Isometry2::from_angle_translation(radians(f64::consts::FRAC_PI_3), &v2(5.0, 5.0));
    let similarity = Similarity2::from_isometry(&isometry);
    let expected = p2(6.0, f64::sqrt(3.0) + 5.0);
    let result = similarity.transform_point(&p2(2.0, 0.0));

    assert!(close_p2(&result, &expected, 1e-8));
    assert_eq!(result, isometry.transform_point(&p2(2.0, 0.0)));
    assert_eq!(similarity.scale(), R(1.0));
}

#[test]
fn similarity3_from_isometry_acts_as_the_isometry() {
    let isometry = Isometry3::from_axis_angle_translation(
        &unit_z_axis(),
        radians(f64::consts::FRAC_PI_3),
        &v3(5.0, 5.0, 0.0),
    );
    let similarity = Similarity3::from_isometry(&isometry);
    let expected = p3(6.0, f64::sqrt(3.0) + 5.0, 13.0);
    let result = similarity.transform_point(&p3(2.0, 0.0, 13.0));

    assert!(close_p3(&result, &expected, 1e-8));
}

#[test]
fn identity_similarity_fixes_points_exactly() {
    let point2 = p2(1.0, 2.0);
    let point3 = p3(1.0, 2.0, 3.0);

    assert_eq!(Similarity2::<R>::identity().mul_point(&point2), point2);
    assert_eq!(Similarity3::<R>::identity().mul_point(&point3), point3);
    assert_eq!(Similarity2::<R>::identity().transform_vector(&v2(3.0, -4.0)), v2(3.0, -4.0));
}

#[test]
fn identity_isometry_fixes_points_exactly() {
    let point2 = p2(1.0, 2.0);
    let point3 = p3(1.0, 2.0, 3.0);

    assert_eq!(Isometry2::<R>::identity().mul_point(&point2), point2);
    assert_eq!(Isometry3::<R>::identity().mul_point(&point3), point3);
}

#[test]
fn similarity2_to_affine_matrix_holds_scaled_rotation_and_translation() {
    let scale = 2_f64;
    let angle = 72_f64.to_radians();
    let rotation = Rotation2::from_angle(Radians(R(angle)));
    let translation = Translation2::new(R(2.0), R(3.0));
    let similarity = Similarity2::from_parts(&translation, &rotation, R(scale));
    let expected = Matrix3x3::new(
        R(scale * angle.cos()),  R(scale * angle.sin()), R(0.0),
        R(-scale * angle.sin()), R(scale * angle.cos()), R(0.0),
        R(2.0),                  R(3.0),                 R(1.0),
    );
    let result = similarity.to_affine_matrix();

    assert!(result.relative_eq(&expected, R(1e-15), R(f64::EPSILON)));
    assert_eq!(similarity.to_transform().matrix(), &result);
    assert_eq!(similarity.to_transform2d().matrix(), &result);
}

#[test]
fn similarity3_to_affine_matrix_holds_scaled_rotation_and_translation() {
    let scale = 2_f64;
    let axis = Unit::from_value(v3(1.0, 1.0, 0.0));
    let rotation = Rotation3::from_axis_angle(&axis, degrees(60.0));
    let translation = Translation3::new(R(2.0), R(3.0), R(4.0));
    let similarity = Similarity3::from_parts(&translation, &rotation, R(scale));
    let sq_3_8 = f64::sqrt(3_f64 / 8_f64);
    let expected = Matrix4x4::new(
        R(scale * 3.0 / 4.0), R(scale * 1.0 / 4.0), R(scale * -sq_3_8),   R(0.0),
        R(scale * 1.0 / 4.0), R(scale * 3.0 / 4.0), R(scale * sq_3_8),    R(0.0),
        R(scale * sq_3_8),    R(scale * -sq_3_8),   R(scale * 1.0 / 2.0), R(0.0),
        R(2.0),               R(3.0),               R(4.0),               R(1.0),
    );
    let result = similarity.to_affine_matrix();

    assert!(result.relative_eq(&expected, R(1e-15), R(f64::EPSILON)));
    assert_eq!(similarity.to_transform().matrix(), &result);
}

#[test]
fn similarity3_to_affine_matrix_places_every_rotation_entry() {
    let rotation = Rotation3::from_matrix_unchecked(Matrix3x3::new(
        R(1.0), R(2.0), R(3.0),
        R(4.0), R(5.0), R(6.0),
        R(7.0), R(8.0), R(9.0),
    ));
    let translation = Translation3::new(R(10.0), R(11.0), R(12.0));
    let similarity = Similarity3::from_parts(&translation, &rotation, R(2.0));
    let expected = Matrix4x4::new(
        R(2.0),  R(4.0),  R(6.0),  R(0.0),
        R(8.0),  R(10.0), R(12.0), R(0.0),
        R(14.0), R(16.0), R(18.0), R(0.0),
        R(10.0), R(11.0), R(12.0), R(1.0),
    );

    assert_eq!(similarity.to_affine_matrix(), expected);
}

#[test]
fn similarity2_inverse_undoes_the_similarity() {
    let similarity = sample_similarity2();
    let similarity_inv = similarity.inverse();
    let point = p2(1.0, 2.0);
    let result = similarity_inv.transform_point(&similarity.transform_point(&point));

    assert!(close_p2(&result, &point, 1e-8));
    assert!(close(similarity_inv.scale(), R(0.2), 1e-15));
}

#[test]
fn similarity3_inverse_undoes_the_similarity() {
    let similarity = sample_similarity3();
    let similarity_inv = similarity.inverse();
    let point = p3(1.0, 2.0, 3.0);
    let result = similarity_inv.transform_point(&similarity.transform_point(&point));

    assert!(close_p3(&result, &point, 1e-8));
}

#[test]
fn similarity_inverse_mut_agrees_with_inverse() {
    let mut similarity2 = sample_similarity2();
    similarity2.inverse_mut();
    let mut similarity3 = sample_similarity3();
    similarity3.inverse_mut();

    assert_eq!(similarity2, sample_similarity2().inverse());
    assert_eq!(similarity3, sample_similarity3().inverse());
}

#[test]
fn similarity_inverse_rescales_the_inverted_translation() {
    let translation = Translation2::new(R(4.0), R(6.0));
    let rotation = Rotation2::from_matrix_unchecked(Matrix2x2::new(R(0.0), R(1.0), R(-1.0), R(0.0)));
    let similarity = Similarity2::from_parts(&translation, &rotation, R(2.0));
    let inverse = similarity.inverse();

    assert_eq!(inverse.scale(), R(0.5));
    assert_eq!(inverse.rotation().matrix(), &Matrix2x2::new(R(0.0), R(-1.0), R(1.0), R(0.0)));
    assert_eq!(inverse.translation().vector(), &v2(-3.0, 2.0));
}

#[test]
fn similarity2_inverse_transform_undoes_transform() {
    let translation = Translation2::from_vector(&v2(2.0, 2.0));
    let rotation = Rotation2::from_angle(radians(f64::consts::FRAC_PI_2));
    let similarity = Similarity2::from_parts(&translation, &rotation, R(12.0));
    let point = p2(1.0, 2.0);
    let vector = Vector2::unit_x();
    let back = similarity.inverse_transform_point(&similarity.transform_point(&point));
    let back_vector = similarity.inverse_transform_vector(&similarity.transform_vector(&vector));

    assert!(close_p2(&back, &point, 1e-8));
    assert!(close_v2(&back_vector, &vector, 1e-8));
}

#[test]
fn similarity3_inverse_transform_undoes_transform() {
    let translation = Translation3::from_vector(&v3(2.0, 2.0, 2.0));
    let rotation = Rotation3::from_axis_angle(&unit_z_axis(), radians(f64::consts::FRAC_PI_2));
    let similarity = Similarity3::from_parts(&translation, &rotation, R(12.0));
    let point = p3(1.0, 2.0, 3.0);
    let vector = Vector3::unit_x();
    let back = similarity.inverse_transform_point(&similarity.transform_point(&point));
    let back_vector = similarity.inverse_transform_vector(&similarity.transform_vector(&vector));

    assert!(close_p3(&back, &point, 1e-8));
    assert!(close_v3(&back_vector, &vector, 1e-8));
}

#[test]
fn similarity2_transform_point_scales_rotates_translates() {
    let translation = Translation2::from_vector(&v2(2.0, 2.0));
    let rotation = Rotation2::from_angle(radians(f64::consts::FRAC_PI_2));
    let similarity = Similarity2::from_parts(&translation, &rotation, R(12.0));
    let result = similarity.transform_point(&p2(1.0, 2.0));

    assert!(close_p2(&result, &p2(-22.0, 14.0), 1e-8));
}

#[test]
fn similarity3_transform_point_scales_rotates_translates() {
    let translation = Translation3::from_vector(&v3(2.0, 2.0, 2.0));
    let rotation = Rotation3::from_axis_angle(&unit_z_axis(), radians(f64::consts::FRAC_PI_2));
    let similarity = Similarity3::from_parts(&translation, &rotation, R(12.0));
    let result = similarity.transform_point(&p3(1.0, 2.0, 3.0));

    assert!(close_p3(&result, &p3(-22.0, 14.0, 38.0), 1e-8));
}

#[test]
fn similarity_transform_vector_ignores_the_translation() {
    let translation = Translation2::from_vector(&v2(1.0, 1.0));
    let rotation = Rotation2::from_angle(radians(f64::consts::FRAC_PI_2));
    let similarity = Similarity2::from_parts(&translation, &rotation, R(12.0));
    let vector = Vector2::unit_x();
    let result = similarity.transform_vector(&vector);
    let rotated = similarity.rotation().rotate_vector(&vector);

    assert!(close_v2(&result, &v2(0.0, 12.0), 1e-8));
    assert!(close_v2(&result, &rotated.mul(similarity.scale()), 1e-12));

    let translation = Translation3::from_vector(&v3(1.0, 1.0, 1.0));
    let rotation = Rotation3::from_axis_angle(&unit_z_axis(), radians(f64::consts::FRAC_PI_2));
    let similarity = Similarity3::from_parts(&translation, &rotation, R(12.0));
    let result = similarity.transform_vector(&Vector3::unit_x());

    assert!(close_v3(&result, &v3(0.0, 12.0, 0.0), 1e-8));
}

#[test]
fn similarity2_from_angle_turns_unit_x_to_unit_y() {
    let similarity = Similarity2::from_angle(degrees(90.0));
    let result = similarity.transform_vector(&Vector2::unit_x());

    assert!(close_v2(&result, &Vector2::unit_y(), 1e-8));
}

#[test]
fn similarity3_from_axis_angle_rotates_about_the_axis() {
    let similarity = Similarity3::from_axis_angle(&unit_z_axis(), radians(f64::consts::FRAC_PI_4));
    let expected = v3(-1.0 / f64::sqrt(2.0), 3.0 / f64::sqrt(2.0), 3.0);
    let result = similarity.transform_vector(&v3(1.0, 2.0, 3.0));

    assert!(close_v3(&result, &expected, 1e-8));
}

#[test]
fn look_to_sends_eye_to_origin_and_direction_to_the_z_axis() {
    let eye = p3(1.0, 2.0, 3.0);
    let target = p3(1.0, -1.0, 1.0);
    let direction = target.sub(&eye);
    let up = v3(2.0, 2.0, 0.0);
    let origin = Point3::origin();
    let unit_z = Vector3::unit_z();

    let lh = Similarity3::look_to_lh(&eye, &direction, &up);
    assert!(close_p3(&lh.transform_point(&eye), &origin, 1e-10));
    assert!(close_v3(&lh.transform_vector(&direction).normalize(), &unit_z, 1e-10));

    let rh = Similarity3::look_to_rh(&eye, &direction, &up);
    assert!(close_p3(&rh.transform_point(&eye), &origin, 1e-10));
    assert!(close_v3(&rh.transform_vector(&direction).normalize(), &unit_z.neg(), 1e-10));
}

#[test]
fn look_at_sends_eye_to_origin_and_line_of_sight_to_the_z_axis() {
    let target = p3(0.0, 6.0, 0.0);
    let up: Vector3<R> = Vector3::unit_x();
    let eye = p3(1.0, 2.0, 3.0);
    let direction = target.sub(&eye);
    let unit_z = Vector3::unit_z();

    let lh = Similarity3::look_at_lh(&eye, &target, &up);
    assert!(close_v3(&lh.transform_vector(&direction).normalize(), &unit_z, 1e-10));
    assert_eq!(lh.transform_point(&eye), Point3::origin());
    assert_eq!(lh, Similarity3::look_to_lh(&eye, &direction, &up));

    let rh = Similarity3::look_at_rh(&eye, &target, &up);
    assert!(close_v3(&rh.transform_vector(&direction).normalize(), &unit_z.neg(), 1e-10));
    assert_eq!(rh.transform_point(&eye), Point3::origin());
}

#[test]
fn inverse_look_to_sends_the_z_axis_to_direction_and_origin_to_eye() {
    let eye = p3(1.0, 2.0, 3.0);
    let target = p3(1.0, -1.0, 1.0);
    let up = v3(2.0, 2.0, 0.0);
    let direction = target.sub(&eye);
    let unit_z = Vector3::unit_z();

    let lh = Similarity3::look_to_lh_inv(&eye, &direction, &up);
    assert!(close_v3(&lh.transform_vector(&unit_z), &direction.normalize(), 1e-10));
    assert_eq!(lh.transform_point(&Point3::origin()), eye);

    let rh = Similarity3::look_to_rh_inv(&eye, &direction, &up);
    assert!(close_v3(&rh.transform_vector(&unit_z.neg()), &direction.normalize(), 1e-10));

    let lh_at = Similarity3::look_at_lh_inv(&eye, &target, &up);
    assert_eq!(lh_at, lh);
    let rh_at = Similarity3::look_at_rh_inv(&eye, &target, &up);
    assert_eq!(rh_at, rh);
}

#[test]
fn inverse_look_to_undoes_look_to() {
    let eye = p3(1.0, 2.0, 3.0);
    let direction = v3(0.0, -3.0, -2.0);
    let up = v3(2.0, 2.0, 0.0);
    let point = p3(-4.0, 5.0, 0.5);
    let view = Isometry3::look_to_rh(&eye, &direction, &up);
    let world = Isometry3::look_to_rh_inv(&eye, &direction, &up);

    assert!(close_p3(&world.transform_point(&view.transform_point(&point)), &point, 1e-10));
    assert!(view.inverse().abs_diff_eq(&world, R(1e-12)));
}

#[test]
fn face_towards_sends_the_z_axis_to_the_line_of_sight() {
    let eye = p3(1.0, 2.0, 3.0);
    let target = p3(1.0, -1.0, 1.0);
    let up = v3(2.0, 2.0, 0.0);
    let similarity = Similarity3::face_towards(&eye, &target, &up);
    let direction = target.sub(&eye).normalize();

    assert_eq!(similarity.transform_vector(&Vector3::unit_z()), direction);
    assert_eq!(similarity, Similarity3::from_isometry(&Isometry3::face_towards(&eye, &target, &up)));
}

#[test]
fn rotation_composed_with_its_inverse_is_the_identity() {
    let rotation2 = Rotation2::from_angle(degrees(72.0));
    let rotation3 = Rotation3::from_axis_angle(&Unit::from_value(v3(1.0, -2.0, 2.0)), degrees(40.0));

    assert!(rotation2.inverse().mul(&rotation2).abs_diff_eq(&Rotation2::identity(), R(1e-15)));
    assert!(rotation2.mul(&rotation2.inverse()).abs_diff_eq(&Rotation2::identity(), R(1e-15)));
    assert!(rotation3.inverse().mul(&rotation3).abs_diff_eq(&Rotation3::identity(), R(1e-15)));
    assert!(rotation3.mul(&rotation3.inverse()).abs_diff_eq(&Rotation3::identity(), R(1e-15)));
}

#[test]
fn rotation_inverse_is_the_transpose() {
    let matrix = Matrix3x3::new(
        R(1.0), R(2.0), R(3.0),
        R(4.0), R(5.0), R(6.0),
        R(7.0), R(8.0), R(9.0),
    );
    let rotation = Rotation3::from_matrix_unchecked(matrix);
    let mut in_place = rotation;
    in_place.inverse_mut();

    assert_eq!(rotation.inverse().matrix(), &matrix.transpose());
    assert_eq!(in_place, rotation.inverse());
    assert_eq!(
        rotation.inverse_rotate_vector(&v3(1.0, 0.0, 0.0)),
        v3(1.0, 4.0, 7.0)
    );
    assert_eq!(rotation.rotate_point(&p3(0.0, 1.0, 0.0)), p3(4.0, 5.0, 6.0));
    assert_eq!(rotation.inverse_rotate_point(&p3(0.0, 1.0, 0.0)), p3(2.0, 5.0, 8.0));
}

#[test]
fn rotation2_acts_counterclockwise() {
    let rotation = Rotation2::from_matrix_unchecked(Matrix2x2::new(R(0.0), R(1.0), R(-1.0), R(0.0)));
    let mut in_place = rotation;
    in_place.inverse_mut();

    assert_eq!(rotation.rotate_vector(&v2(1.0, 0.0)), v2(0.0, 1.0));
    assert_eq!(rotation.rotate_point(&p2(0.0, 1.0)), p2(-1.0, 0.0));
    assert_eq!(rotation.inverse_rotate_vector(&v2(0.0, 1.0)), v2(1.0, 0.0));
    assert_eq!(rotation.inverse_rotate_point(&p2(-1.0, 0.0)), p2(0.0, 1.0));
    assert_eq!(in_place, rotation.inverse());
    assert_eq!(rotation.mul(&rotation).matrix(), &Matrix2x2::new(R(-1.0), R(0.0), R(0.0), R(-1.0)));
    assert!(Rotation2::from_angle(degrees(90.0)).abs_diff_eq(&rotation, R(1e-15)));
}

#[test]
fn rodrigues_formula_fixes_the_axis() {
    let axis = Unit::from_value(v3(1.0, 2.0, -2.0));
    let rotation = Rotation3::from_axis_angle(&axis, degrees(33.0));

    assert!(close_v3(&rotation.rotate_vector(&axis.into_inner()), &axis.into_inner(), 1e-14));
}

#[test]
fn translation_adds_to_points_and_leaves_vectors() {
    let translation = Translation3::from_translation(&v3(1.0, 2.0, 3.0));
    let mut in_place = translation;
    in_place.inverse_mut();

    assert_eq!(translation.translate_point(&p3(1.0, 1.0, 1.0)), p3(2.0, 3.0, 4.0));
    assert_eq!(translation.translate_vector(&v3(1.0, 1.0, 1.0)), v3(1.0, 1.0, 1.0));
    assert_eq!(translation.inverse_translate_point(&p3(2.0, 3.0, 4.0)), p3(1.0, 1.0, 1.0));
    assert_eq!(translation.inverse_translate_vector(&v3(1.0, 1.0, 1.0)), v3(1.0, 1.0, 1.0));
    assert_eq!(translation.inverse().vector(), &v3(-1.0, -2.0, -3.0));
    assert_eq!(in_place, translation.inverse());
    assert_eq!(translation.mul(&translation).vector(), &v3(2.0, 4.0, 6.0));
    assert_eq!(Translation3::<R>::identity().vector(), &Vector3::zero());
    assert_eq!(
        translation.to_affine_matrix(),
        Matrix4x4::new(
            R(1.0), R(0.0), R(0.0), R(0.0),
            R(0.0), R(1.0), R(0.0), R(0.0),
            R(0.0), R(0.0), R(1.0), R(0.0),
            R(1.0), R(2.0), R(3.0), R(1.0),
        )
    );

    let translation = Translation2::from_translation(&v2(1.0, 2.0));
    assert_eq!(translation, Translation2::from_vector(&v2(1.0, 2.0)));
    assert_eq!(translation.translate_point(&p2(1.0, 1.0)), p2(2.0, 3.0));
    assert_eq!(translation.inverse_translate_point(&p2(2.0, 3.0)), p2(1.0, 1.0));
    assert_eq!(translation.inverse().mul(&translation), Translation2::identity());
    assert_eq!(
        translation.to_affine_matrix(),
        Matrix3x3::new(
            R(1.0), R(0.0), R(0.0),
            R(0.0), R(1.0), R(0.0),
            R(1.0), R(2.0), R(1.0),
        )
    );
}

#[test]
fn isometry_rotates_then_translates() {
    let quarter = Rotation2::from_matrix_unchecked(Matrix2x2::new(R(0.0), R(1.0), R(-1.0), R(0.0)));
    let isometry = Isometry2::from_parts(&Translation2::new(R(10.0), R(20.0)), &quarter);

    assert_eq!(isometry.transform_point(&p2(1.0, 0.0)), p2(10.0, 21.0));
    assert_eq!(isometry.transform_vector(&v2(1.0, 0.0)), v2(0.0, 1.0));
    assert_eq!(isometry.inverse_transform_point(&p2(10.0, 21.0)), p2(1.0, 0.0));
    assert_eq!(isometry.inverse_transform_vector(&v2(0.0, 1.0)), v2(1.0, 0.0));
    assert_eq!(isometry.rotation(), &quarter);
    assert_eq!(isometry.translation().vector(), &v2(10.0, 20.0));
    assert_eq!(
        isometry.to_affine_matrix(),
        Matrix3x3::new(
            R(0.0),  R(1.0),  R(0.0),
            R(-1.0), R(0.0),  R(0.0),
            R(10.0), R(20.0), R(1.0),
        )
    );
    assert_eq!(Isometry2::from_rotation(&quarter).transform_point(&p2(1.0, 0.0)), p2(0.0, 1.0));
    assert_eq!(
        Isometry2::from_translation(&Translation2::new(R(1.0), R(1.0))).transform_point(&p2(1.0, 0.0)),
        p2(2.0, 1.0)
    );
}

#[test]
fn isometry_inverse_unapplies_the_rotation_to_the_translation() {
    let quarter = Rotation2::from_matrix_unchecked(Matrix2x2::new(R(0.0), R(1.0), R(-1.0), R(0.0)));
    let isometry = Isometry2::from_parts(&Translation2::new(R(10.0), R(20.0)), &quarter);
    let inverse = isometry.inverse();
    let mut in_place = isometry;
    in_place.inverse_mut();

    assert_eq!(inverse.rotation(), &quarter.inverse());
    assert_eq!(inverse.translation().vector(), &v2(-20.0, 10.0));
    assert_eq!(in_place, inverse);
    assert_eq!(inverse.transform_point(&isometry.transform_point(&p2(3.0, 4.0))), p2(3.0, 4.0));
}

#[test]
fn isometry_inverse_undoes_the_isometry() {
    let isometry2 = Isometry2::from_angle_translation(degrees(72.0), &v2(1.0, 2.0));
    let isometry3 = Isometry3::from_axis_angle_translation(
        &Unit::from_value(v3(1.0, 1.0, 1.0)),
        degrees(72.0),
        &v3(6.0, 7.0, 8.0),
    );
    let point2 = p2(1.0, 2.0);
    let point3 = p3(1.0, 2.0, 3.0);

    assert!(close_p2(
        &isometry2.inverse().transform_point(&isometry2.transform_point(&point2)),
        &point2,
        1e-12
    ));
    assert!(close_p3(
        &isometry3.inverse().transform_point(&isometry3.transform_point(&point3)),
        &point3,
        1e-12
    ));
    assert!(close_p3(
        &isometry3.inverse_transform_point(&isometry3.transform_point(&point3)),
        &point3,
        1e-12
    ));
}

#[test]
fn isometry_composition_rotates_the_second_translation() {
    let quarter = Rotation2::from_matrix_unchecked(Matrix2x2::new(R(0.0), R(1.0), R(-1.0), R(0.0)));
    let a = Isometry2::from_parts(&Translation2::new(R(10.0), R(20.0)), &quarter);
    let b = Isometry2::from_parts(&Translation2::new(R(1.0), R(2.0)), &quarter);
    let composed = a.mul(&b);
    let point = p2(3.0, 4.0);

    assert_eq!(composed.translation().vector(), &v2(8.0, 21.0));
    assert_eq!(composed.rotation(), &quarter.mul(&quarter));
    assert_eq!(composed.transform_point(&point), a.transform_point(&b.transform_point(&point)));
}

#[test]
fn similarity_composition_scales_the_rotated_translation() {
    let quarter = Rotation2::from_matrix_unchecked(Matrix2x2::new(R(0.0), R(1.0), R(-1.0), R(0.0)));
    let a = Similarity2::from_parts(&Translation2::new(R(10.0), R(20.0)), &quarter, R(2.0));
    let b = Similarity2::from_parts(&Translation2::new(R(1.0), R(2.0)), &quarter, R(3.0));
    let composed = a.mul(&b);
    let with_isometry =
        a.mul_isometry(&Isometry2::from_parts(&Translation2::new(R(1.0), R(2.0)), &quarter));
    let point = p2(3.0, 4.0);

    assert_eq!(composed.scale(), R(6.0));
    assert_eq!(composed.translation().vector(), &v2(6.0, 22.0));
    assert_eq!(composed.rotation(), &quarter.mul(&quarter));
    assert_eq!(composed.transform_point(&point), a.transform_point(&b.transform_point(&point)));
    assert_eq!(with_isometry.scale(), R(2.0));
    assert_eq!(with_isometry.translation().vector(), &v2(6.0, 22.0));
}

#[test]
fn composition_is_associative_within_tolerance() {
    let a = sample_similarity3();
    let b = Similarity3::from_parts(
        &Translation3::new(R(-1.0), R(0.5), R(2.0)),
        &Rotation3::from_axis_angle(&Unit::from_value(v3(1.0, 2.0, 3.0)), degrees(25.0)),
        R(0.75),
    );
    let c = Similarity3::from_parts(
        &Translation3::new(R(3.0), R(-2.0), R(1.0)),
        &Rotation3::from_axis_angle(&Unit::from_value(v3(-1.0, 0.0, 1.0)), degrees(130.0)),
        R(1.5),
    );

    assert!(a.mul(&b).mul(&c).relative_eq(&a.mul(&b.mul(&c)), R(1e-12), R(1e-12)));
    assert!(a
        .isometry
        .mul(&b.isometry)
        .mul(&c.isometry)
        .relative_eq(&a.isometry.mul(&b.isometry.mul(&c.isometry)), R(1e-12), R(1e-12)));

    let a = sample_similarity2();
    let b = Similarity2::from_parts(
        &Translation2::new(R(-1.0), R(0.5)),
        &Rotation2::from_angle(degrees(25.0)),
        R(0.75),
    );
    let c = Similarity2::from_parts(
        &Translation2::new(R(3.0), R(-2.0)),
        &Rotation2::from_angle(degrees(130.0)),
        R(1.5),
    );

    assert!(a.mul(&b).mul(&c).relative_eq(&a.mul(&b.mul(&c)), R(1e-12), R(1e-12)));
    assert!(a
        .isometry
        .mul(&b.isometry)
        .mul(&c.isometry)
        .ulps_eq(&a.isometry.mul(&b.isometry.mul(&c.isometry)), R(1e-12), 16));
}

#[test]
fn tolerance_comparisons_tell_near_from_far() {
    let similarity = sample_similarity3();
    let mut nudged = similarity;
    nudged.scale = R(5.0 + 1e-9);
    let mut moved = similarity;
    moved.isometry.translation.vector.z = R(8.5);

    assert!(similarity.abs_diff_eq(&nudged, R(1e-8)));
    assert!(!similarity.abs_diff_eq(&nudged, R(1e-10)));
    assert!(similarity.relative_eq(&nudged, R(0.0), R(1e-8)));
    assert!(!similarity.relative_eq(&nudged, R(0.0), R(1e-12)));
    assert!(similarity.ulps_eq(&similarity, R(0.0), 0));
    assert!(!similarity.ulps_eq(&nudged, R(0.0), 4));
    assert!(!similarity.abs_diff_eq(&moved, R(1e-8)));
}

#[test]
fn transform_applies_its_matrix_in_homogeneous_coordinates() {
    let transform = Transform2D::from_matrix_unchecked(Matrix3x3::new(
        R(2.0), R(0.0), R(0.0),
        R(0.0), R(3.0), R(0.0),
        R(5.0), R(7.0), R(1.0),
    ));

    assert_eq!(transform.apply_point(p2(1.0, 1.0)), p2(7.0, 10.0));
    assert_eq!(transform.apply_vector(v2(1.0, 1.0)), v2(2.0, 3.0));
    assert_eq!(transform.to_transform2d(), transform);
    assert_eq!(
        <Transform2D<R> as AffineTransformation2D<R>>::identity().apply_point(p2(4.0, 5.0)),
        p2(4.0, 5.0)
    );

    let transform = Transform3D::from_matrix_unchecked(Matrix4x4::new(
        R(2.0), R(0.0), R(0.0), R(0.0),
        R(0.0), R(3.0), R(0.0), R(0.0),
        R(0.0), R(0.0), R(4.0), R(0.0),
        R(5.0), R(7.0), R(9.0), R(1.0),
    ));

    assert_eq!(transform.apply_point(p3(1.0, 1.0, 1.0)), p3(7.0, 10.0, 13.0));
    assert_eq!(transform.apply_vector(v3(1.0, 1.0, 1.0)), v3(2.0, 3.0, 4.0));
    assert_eq!(transform.to_transform3d(), transform);
    assert_eq!(
        <Transform3D<R> as AffineTransformation3D<R>>::identity().apply_vector(v3(4.0, 5.0, 6.0)),
        v3(4.0, 5.0, 6.0)
    );
}

#[test]
fn transform_inverse_exists_unless_the_matrix_is_singular() {
    let transform = Transform2D::from_matrix_unchecked(Matrix3x3::new(
        R(2.0), R(0.0), R(0.0),
        R(0.0), R(4.0), R(0.0),
        R(6.0), R(8.0), R(1.0),
    ));
    let inverse = transform.inverse().unwrap();

    assert_eq!(
        inverse.matrix(),
        &Matrix3x3::new(
            R(0.5),  R(0.0),  R(0.0),
            R(0.0),  R(0.25), R(0.0),
            R(-3.0), R(-2.0), R(1.0),
        )
    );
    assert_eq!(inverse.apply_point(transform.apply_point(p2(1.0, 2.0))), p2(1.0, 2.0));
    assert_eq!(transform.apply_inverse_vector(v2(2.0, 4.0)), Some(v2(1.0, 1.0)));
    assert_eq!(transform.mul(&inverse).matrix(), &Matrix3x3::identity());

    let singular = Transform2D::from_matrix_unchecked(Matrix3x3::new(
        R(1.0), R(2.0), R(0.0),
        R(2.0), R(4.0), R(0.0),
        R(0.0), R(0.0), R(1.0),
    ));

    assert_eq!(singular.inverse(), None);
    assert_eq!(singular.apply_inverse_vector(v2(1.0, 1.0)), None);
}

#[test]
fn transform3d_inverse_undoes_the_transform() {
    let similarity = sample_similarity3();
    let transform = similarity.to_transform();
    let inverse = transform.inverse().unwrap();
    let point = p3(1.0, -2.0, 3.0);

    assert!(close_p3(&inverse.apply_point(transform.apply_point(point)), &point, 1e-12));
    assert!(close_p3(&transform.apply_point(point), &similarity.transform_point(&point), 1e-12));
    assert!(inverse
        .matrix()
        .abs_diff_eq(&similarity.inverse().to_affine_matrix(), R(1e-12)));
    assert!(transform.mul(&inverse).matrix().abs_diff_eq(&Matrix4x4::identity(), R(1e-12)));

    let singular = Transform3D::from_matrix_unchecked(Matrix4x4::new(
        R(1.0), R(2.0), R(3.0), R(4.0),
        R(2.0), R(4.0), R(6.0), R(8.0),
        R(0.0), R(1.0), R(0.0), R(1.0),
        R(1.0), R(0.0), R(0.0), R(1.0),
    ));

    assert_eq!(singular.inverse(), None);
    assert_eq!(singular.apply_inverse_vector(v3(1.0, 1.0, 1.0)), None);
}

#[test]
fn scale_holds_its_factors_on_the_diagonal() {
    assert_eq!(
        Scale2::from_nonuniform_scale(R(2.0), R(3.0)).matrix(),
        &Matrix3x3::new(
            R(2.0), R(0.0), R(0.0),
            R(0.0), R(3.0), R(0.0),
            R(0.0), R(0.0), R(1.0),
        )
    );
    assert_eq!(Scale2::from_vector(v2(2.0, 3.0)), Scale2::from_nonuniform_scale(R(2.0), R(3.0)));
    assert_eq!(Scale2::from_scale(R(2.0)), Scale2::from_nonuniform_scale(R(2.0), R(2.0)));
    assert_eq!(
        Scale3::from_nonuniform_scale(R(2.0), R(3.0), R(4.0)).matrix(),
        &Matrix4x4::new(
            R(2.0), R(0.0), R(0.0), R(0.0),
            R(0.0), R(3.0), R(0.0), R(0.0),
            R(0.0), R(0.0), R(4.0), R(0.0),
            R(0.0), R(0.0), R(0.0), R(1.0),
        )
    );
    assert_eq!(
        Scale3::from_vector(v3(2.0, 3.0, 4.0)),
        Scale3::from_nonuniform_scale(R(2.0), R(3.0), R(4.0))
    );
    assert_eq!(Scale3::from_scale(R(2.0)), Scale3::from_nonuniform_scale(R(2.0), R(2.0), R(2.0)));
    assert_eq!(
        Scale2::from_scale(R(2.0)).to_transform2d().apply_point(p2(1.0, 2.0)),
        p2(2.0, 4.0)
    );
    assert_eq!(
        Scale3::from_scale(R(2.0)).to_transform3d().apply_point(p3(1.0, 2.0, 3.0)),
        p3(2.0, 4.0, 6.0)
    );
}

#[test]
fn identity_types_hold_the_identity_matrix() {
    assert_eq!(Identity2::<R>::identity().matrix(), &Matrix3x3::identity());
    assert_eq!(Identity3::<R>::identity().matrix(), &Matrix4x4::identity());
    assert_eq!(
        Identity2::<R>::identity().to_transform2d().apply_point(p2(1.0, 2.0)),
        p2(1.0, 2.0)
    );
    assert_eq!(
        Identity3::<R>::identity().to_transform3d().apply_point(p3(1.0, 2.0, 3.0)),
        p3(1.0, 2.0, 3.0)
    );
}

#[test]
fn shear_moves_one_coordinate_by_another() {
    assert_eq!(
        Shear2::from_vector(v2(2.0, 3.0)).matrix(),
        &Matrix3x3::new(
            R(1.0), R(3.0), R(0.0),
            R(2.0), R(1.0), R(0.0),
            R(0.0), R(0.0), R(1.0),
        )
    );
    assert_eq!(Shear2::from_shear_x(R(2.0)), Shear2::from_vector(v2(2.0, 0.0)));
    assert_eq!(Shear2::from_shear_y(R(3.0)), Shear2::from_vector(v2(0.0, 3.0)));
    assert_eq!(
        Shear2::from_shear_x(R(2.0)).to_transform2d().apply_point(p2(1.0, 1.0)),
        p2(3.0, 1.0)
    );
    assert_eq!(
        Shear2::from_shear_y(R(3.0)).to_transform2d().apply_point(p2(1.0, 1.0)),
        p2(1.0, 4.0)
    );
    assert_eq!(
        Shear3::from_shear_x(R(2.0), R(3.0)).to_transform3d().apply_point(p3(1.0, 1.0, 1.0)),
        p3(6.0, 1.0, 1.0)
    );
    assert_eq!(
        Shear3::from_shear_y(R(2.0), R(3.0)).to_transform3d().apply_point(p3(1.0, 1.0, 1.0)),
        p3(1.0, 6.0, 1.0)
    );
    assert_eq!(
        Shear3::from_shear_z(R(2.0), R(3.0)).to_transform3d().apply_point(p3(1.0, 1.0, 1.0)),
        p3(1.0, 1.0, 6.0)
    );
    assert_eq!(
        Shear3::from_shear_x(R(2.0), R(3.0)).matrix(),
        &Matrix4x4::new(
            R(1.0), R(0.0), R(0.0), R(0.0),
            R(2.0), R(1.0), R(0.0), R(0.0),
            R(3.0), R(0.0), R(1.0), R(0.0),
            R(0.0), R(0.0), R(0.0), R(1.0),
        )
    );
    assert_eq!(Shear3::from_shear_z(R(2.0), R(3.0)).matrix().determinant(), R(1.0));
    assert_eq!(Shear2::from_shear_x(R(2.0)).matrix().determinant(), R(1.0));
}

#[test]
fn reflection_is_householder_matrix() {
    let reflection = Reflection2::from_normal(v2(0.0, 1.0));

    assert_eq!(
        reflection.matrix(),
        &Matrix3x3::new(
            R(1.0),  R(-0.0), R(0.0),
            R(-0.0), R(-1.0), R(0.0),
            R(0.0),  R(0.0),  R(1.0),
        )
    );
    assert_eq!(reflection.to_transform2d().apply_point(p2(3.0, 4.0)), p2(3.0, -4.0));

    let reflection = Reflection2::from_normal(v2(0.6, 0.8));
    let twice = reflection.matrix().mul(reflection.matrix());

    assert!(twice.abs_diff_eq(&Matrix3x3::identity(), R(1e-15)));
    assert!(close(reflection.matrix().determinant(), R(-1.0), 1e-15));
    assert!(close(reflection.matrix().c0r1, R(-0.96), 1e-15));
    assert!(close(reflection.matrix().c0r0, R(0.28), 1e-15));

    let reflection = Reflection3::from_normal(v3(0.0, 0.0, 1.0));

    assert_eq!(reflection.to_transform3d().apply_point(p3(1.0, 2.0, 3.0)), p3(1.0, 2.0, -3.0));

    let normal = v3(2.0, -3.0, 6.0).div(R(7.0));
    let reflection = Reflection3::from_normal(normal);
    let twice = reflection.matrix().mul(reflection.matrix());

    assert!(twice.abs_diff_eq(&Matrix4x4::identity(), R(1e-15)));
    assert!(close(reflection.matrix().determinant(), R(-1.0), 1e-14));
    assert!(close_v3(
        &reflection.to_transform3d().apply_vector(normal),
        &normal.neg(),
        1e-15
    ));
}

#[test]
fn operators_apply_and_compose() {
    let quarter = Rotation2::from_matrix_unchecked(Matrix2x2::new(R(0.0), R(1.0), R(-1.0), R(0.0)));
    let a = Similarity2::from_parts(&Translation2::new(R(10.0), R(20.0)), &quarter, R(2.0));
    let b = Similarity2::from_parts(&Translation2::new(R(1.0), R(2.0)), &quarter, R(3.0));
    let point = p2(3.0, 4.0);
    let vector = v2(3.0, 4.0);

    assert_eq!(a * point, a.transform_point(&point));
    assert_eq!(a * b, a.mul(&b));
    assert_eq!((a * b) * point, a * (b * point));
    assert_eq!(a * b.isometry, a.mul_isometry(&b.isometry));
    assert_eq!(a.isometry * b.isometry, a.isometry.mul(&b.isometry));
    assert_eq!(a.isometry * point, a.isometry.transform_point(&point));
    assert_eq!(quarter * quarter, quarter.mul(&quarter));
    assert_eq!(quarter * vector, v2(-4.0, 3.0));
    assert_eq!(quarter * point, p2(-4.0, 3.0));
    assert_eq!(a.isometry.translation * b.isometry.translation, Translation2::new(R(11.0), R(22.0)));
    assert_eq!(a.isometry.translation * point, p2(13.0, 24.0));
    assert_eq!(a.to_transform() * b.to_transform(), a.to_transform().mul(&b.to_transform()));
    assert_eq!(Similarity2::<R>::identity() * point, point);
    assert_eq!(Isometry2::<R>::identity() * point, point);

    let distance = v3(5.0, 5.0, 5.0);
    let similarity = Similarity3::from_translation(&Translation3::from_vector(&distance));
    let point = p3(1.0, 2.0, 3.0);

    assert_eq!(similarity * point, point + distance);
    assert_eq!(Similarity3::<R>::identity() * point, point);
    assert_eq!(Isometry3::<R>::identity() * point, point);
    assert_eq!((point + distance) - point, distance);
    assert_eq!(distance + distance, distance * R(2.0));
    assert_eq!(distance - distance, Vector3::zero());
    assert_eq!(distance / R(5.0), v3(1.0, 1.0, 1.0));
    assert_eq!(-distance, v3(-5.0, -5.0, -5.0));
    assert_eq!(point * R(2.0), p3(2.0, 4.0, 6.0));
    assert_eq!(point / R(2.0), p3(0.5, 1.0, 1.5));
    assert_eq!(Matrix3x3::<R>::identity() * distance, distance);
    assert_eq!(Matrix3x3::<R>::identity() * Matrix3x3::identity(), Matrix3x3::identity());
}
