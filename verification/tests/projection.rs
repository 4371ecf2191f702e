use approx::RelativeEq;
use cglinalg::matrix::Matrix4x4;
use cglinalg::point::Point3;
use cglinalg::projection::{Orthographic3, Perspective3};
use cglinalg::scalar::{Scalar, ScalarSigned};
use cglinalg::vector::Vector3;

/// Double-precision numbers as scalars of the library.
#[derive(Clone, Copy, Debug, PartialEq)]
struct R(f64);

impl Scalar for R {
    fn zero_value() -> Self {
        R(0.0)
    }

    fn one_value() -> Self {
        R(1.0)
    }

    fn plus(self, rhs: Self) -> Self {
        R(self.0 + rhs.0)
    }

    fn minus(self, rhs: Self) -> Self {
        R(self.0 - rhs.0)
    }

    fn times(self, rhs: Self) -> Self {
        R(self.0 * rhs.0)
    }

    fn over(self, rhs: Self) -> Self {
        R(self.0 / rhs.0)
    }

    fn vanishes(self) -> bool {
        self.0 == 0.0
    }

    fn zero() -> Self {
        R(0.0)
    }

    fn one() -> Self {
        R(1.0)
    }

    fn add(self, rhs: Self) -> Self {
        R(self.0 + rhs.0)
    }

    fn sub(self, rhs: Self) -> Self {
        R(self.0 - rhs.0)
    }

    fn mul(self, rhs: Self) -> Self {
        R(self.0 * rhs.0)
    }

    fn div(self, rhs: Self) -> Self {
        R(self.0 / rhs.0)
    }

    fn is_zero(self) -> bool {
        self.0 == 0.0
    }
}

impl ScalarSigned for R {
    fn negated(self) -> Self {
        R(-self.0)
    }

    fn neg(self) -> Self {
        R(-self.0)
    }
}

fn close(a: R, b: R, epsilon: f64) -> bool {
    f64::relative_eq(&a.0, &b.0, epsilon, f64::default_max_relative())
}

fn close_point(a: &Point3<R>, b: &Point3<R>, epsilon: f64) -> bool {
    close(a.x, b.x, epsilon) && close(a.y, b.y, epsilon) && close(a.z, b.z, epsilon)
}

fn close_vector(a: &Vector3<R>, b: &Vector3<R>, epsilon: f64) -> bool {
    close(a.x, b.x, epsilon) && close(a.y, b.y, epsilon) && close(a.z, b.z, epsilon)
}

fn perspective_expected() -> Matrix4x4<R> {
    Matrix4x4::new(
        R(1_f64 / 4_f64), R(0_f64),         R(0_f64),              R(0_f64),
        R(0_f64),         R(2_f64 / 5_f64), R(0_f64),              R(0_f64),
        R(0_f64),         R(1_f64 / 5_f64), R(-101_f64 / 99_f64),  R(-1_f64),
        R(0_f64),         R(0_f64),         R(-200_f64 / 99_f64),  R(0_f64),
    )
}

#[test]
fn test_perspective_projection_matrix() {
    let left = -4_f64;
    let right = 4_f64;
    let bottom = -2_f64;
    let top = 3_f64;
    let near = 1_f64;
    let far = 100_f64;
    let expected = Matrix4x4::new(
        R(1_f64 / 4_f64), R(0_f64),         R(0_f64),              R(0_f64),
        R(0_f64),         R(2_f64 / 5_f64), R(0_f64),              R(0_f64),
        R(0_f64),         R(1_f64 / 5_f64), R(-101_f64 / 99_f64),  R(-1_f64),
        R(0_f64),         R(0_f64),         R(-200_f64 / 99_f64),  R(0_f64),
    );
    let result =
        Matrix4x4::from_perspective(R(left), R(right), R(bottom), R(top), R(near), R(far));

    assert_eq!(result, expected);
}

#[test]
fn test_perspective_projection_transformation() {
    let left = -4_f64;
    let right = 4_f64;
    let bottom = -2_f64;
    let top = 3_f64;
    let near = 1_f64;
    let far = 100_f64;
    let expected = Matrix4x4::new(
        R(1_f64 / 4_f64), R(0_f64),         R(0_f64),              R(0_f64),
        R(0_f64),         R(2_f64 / 5_f64), R(0_f64),              R(0_f64),
        R(0_f64),         R(1_f64 / 5_f64), R(-101_f64 / 99_f64),  R(-1_f64),
        R(0_f64),         R(0_f64),         R(-200_f64 / 99_f64),  R(0_f64),
    );
    let result = Perspective3::new(R(left), R(right), R(bottom), R(top), R(near), R(far));

    assert_eq!(result.matrix(), &expected);
    assert_eq!(expected, perspective_expected());
}

#[test]
fn test_perspective_projection_unproject_point2() {
    let left = -4_f64;
    let right = 4_f64;
    let bottom = -2_f64;
    let top = 2_f64;
    let near = 1_f64;
    let far = 100_f64;
    let projection = Perspective3::new(R(left), R(right), R(bottom), R(top), R(near), R(far));
    let expected = Point3::new(R(-2_f64), R(2_f64), R(-50_f64));
    let projected_point = projection.project_point(&expected);
    let result = projection.unproject_point(&projected_point);

    assert!(close_point(&result, &expected, 1e-8));
}

#[test]
fn test_perspective_projection_unproject_vector2() {
    let left = -4_f64;
    let right = 4_f64;
    let bottom = -2_f64;
    let top = 2_f64;
    let near = 1_f64;
    let far = 100_f64;
    let projection = Perspective3::new(R(left), R(right), R(bottom), R(top), R(near), R(far));
    let expected = Vector3::new(R(-2_f64), R(2_f64), R(-50_f64));
    let projected_vector = projection.project_vector(&expected);
    let result = projection.unproject_vector(&projected_vector);

    assert!(close_vector(&result, &expected, 1e-8));
}

#[test]
fn test_orthographic_projection_matrix() {
    let left = -4_f64;
    let right = 4_f64;
    let bottom = -2_f64;
    let top = 2_f64;
    let near = 1_f64;
    let far = 100_f64;
    let expected = Matrix4x4::new(
        R(1_f64 / 4_f64), R(0_f64),         R(0_f64),             R(0_f64),
        R(0_f64),         R(1_f64 / 2_f64), R(0_f64),             R(0_f64),
        R(0_f64),         R(0_f64),         R(-2_f64 / 99_f64),   R(0_f64),
        R(0_f64),         R(0_f64),         R(-101_f64 / 99_f64), R(1_f64),
    );
    let result =
        Matrix4x4::from_orthographic(R(left), R(right), R(bottom), R(top), R(near), R(far));

    assert_eq!(result, expected);
}

#[test]
fn test_orthographic_projection_transformation() {
    let left = -4_f64;
    let right = 4_f64;
    let bottom = -2_f64;
    let top = 2_f64;
    let near = 1_f64;
    let far = 100_f64;
    let expected = Matrix4x4::new(
        R(1_f64 / 4_f64), R(0_f64),         R(0_f64),             R(0_f64),
        R(0_f64),         R(1_f64 / 2_f64), R(0_f64),             R(0_f64),
        R(0_f64),         R(0_f64),         R(-2_f64 / 99_f64),   R(0_f64),
        R(0_f64),         R(0_f64),         R(-101_f64 / 99_f64), R(1_f64),
    );
    let result = Orthographic3::new(R(left), R(right), R(bottom), R(top), R(near), R(far));

    assert_eq!(result.matrix(), &expected);
}

#[test]
fn test_orthographic_projection_unproject_point() {
    let left = -4_f64;
    let right = 4_f64;
    let bottom = -2_f64;
    let top = 2_f64;
    let near = 1_f64;
    let far = 100_f64;
    let projection = Orthographic3::new(R(left), R(right), R(bottom), R(top), R(near), R(far));
    let expected = Point3::new(R(1_f64), R(1_f64), R(50_f64));
    let projected_point = projection.project_point(&expected);
    let result = projection.unproject_point(&projected_point);

    assert_eq!(result, expected);
}

#[test]
fn test_orthographic_projection_unproject_vector() {
    let left = -4_f64;
    let right = 4_f64;
    let bottom = -2_f64;
    let top = 2_f64;
    let near = 1_f64;
    let far = 100_f64;
    let projection = Orthographic3::new(R(left), R(right), R(bottom), R(top), R(near), R(far));
    let expected = Vector3::new(R(1_f64), R(1_f64), R(50_f64));
    let projected_vector = projection.project_vector(&expected);
    let result = projection.unproject_vector(&projected_vector);

    assert_eq!(result, expected);
}

#[test]
fn perspective_projection_sends_near_and_far_planes_to_unit_depths() {
    let projection = Perspective3::new(R(-4.0), R(4.0), R(-2.0), R(2.0), R(1.0), R(100.0));
    let near = projection.project_point(&Point3::new(R(0.0), R(0.0), R(-1.0)));
    let far = projection.project_point(&Point3::new(R(0.0), R(0.0), R(-100.0)));

    assert!(close(near.z, R(-1.0), 1e-12));
    assert!(close(far.z, R(1.0), 1e-12));
}

#[test]
fn orthographic_projection_sends_corners_to_corners() {
    let projection = Orthographic3::new(R(-4.0), R(4.0), R(-2.0), R(2.0), R(1.0), R(100.0));
    let corner = projection.project_point(&Point3::new(R(4.0), R(2.0), R(-100.0)));

    assert!(close_point(&corner, &Point3::new(R(1.0), R(1.0), R(1.0)), 1e-12));
}
