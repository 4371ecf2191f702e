//! Camera projections onto the canonical view volume: perspective and
//! orthographic, each given by the six planes of its viewing frustum.
//!
//! The observer looks down the negative z-axis. The near plane goes to
//! depth -1 and the far plane to depth 1.

use crate::algebra::{
    lemma_cancel_factor, lemma_distributes_right, lemma_negated_plus, lemma_negated_times,
    lemma_negated_twice, lemma_negated_zero, lemma_one_times, lemma_times_negated,
    lemma_times_zero,
};
use crate::matrix::Matrix4x4;
use crate::point::Point3;
use crate::scalar::{Field, ScalarSigned};
use crate::vector::Vector3;
use vstd::prelude::*;

verus! {

impl<S: ScalarSigned> Matrix4x4<S> {
    /// The matrix of the perspective projection for the frustum with the
    /// given planes.
    pub open spec fn perspective(left: S, right: S, bottom: S, top: S, near: S, far: S) -> Self {
        let zero = S::zero_value();
        let one = S::one_value();
        let two = one.plus(one);
        Matrix4x4 {
            c0r0: two.times(near).over(right.minus(left)),
            c0r1: zero,
            c0r2: zero,
            c0r3: zero,
            c1r0: zero,
            c1r1: two.times(near).over(top.minus(bottom)),
            c1r2: zero,
            c1r3: zero,
            c2r0: right.plus(left).over(right.minus(left)),
            c2r1: top.plus(bottom).over(top.minus(bottom)),
            c2r2: far.plus(near).negated().over(far.minus(near)),
            c2r3: one.negated(),
            c3r0: zero,
            c3r1: zero,
            c3r2: two.times(far).times(near).negated().over(far.minus(near)),
            c3r3: zero,
        }
    }

    /// The matrix of the orthographic projection for the box with the given
    /// planes.
    pub open spec fn orthographic(left: S, right: S, bottom: S, top: S, near: S, far: S) -> Self {
        let zero = S::zero_value();
        let one = S::one_value();
        let two = one.plus(one);
        Matrix4x4 {
            c0r0: two.over(right.minus(left)),
            c0r1: zero,
            c0r2: zero,
            c0r3: zero,
            c1r0: zero,
            c1r1: two.over(top.minus(bottom)),
            c1r2: zero,
            c1r3: zero,
            c2r0: zero,
            c2r1: zero,
            c2r2: two.negated().over(far.minus(near)),
            c2r3: zero,
            c3r0: right.plus(left).negated().over(right.minus(left)),
            c3r1: top.plus(bottom).negated().over(top.minus(bottom)),
            c3r2: far.plus(near).negated().over(far.minus(near)),
            c3r3: one,
        }
    }

    /// Builds the perspective projection matrix. Opposite planes must
    /// differ: where two coincide, entries are whatever the scalar's division
    /// by zero gives.
    pub fn from_perspective(left: S, right: S, bottom: S, top: S, near: S, far: S) -> (r: Self)
        ensures
            r == Self::perspective(left, right, bottom, top, near, far),
    {
        let zero = S::zero();
        let one = S::one();
        let two = one.add(one);
        Matrix4x4 {
            c0r0: two.mul(near).div(right.sub(left)),
            c0r1: zero,
            c0r2: zero,
            c0r3: zero,
            c1r0: zero,
            c1r1: two.mul(near).div(top.sub(bottom)),
            c1r2: zero,
            c1r3: zero,
            c2r0: right.add(left).div(right.sub(left)),
            c2r1: top.add(bottom).div(top.sub(bottom)),
            c2r2: far.add(near).neg().div(far.sub(near)),
            c2r3: one.neg(),
            c3r0: zero,
            c3r1: zero,
            c3r2: two.mul(far).mul(near).neg().div(far.sub(near)),
            c3r3: zero,
        }
    }

    /// Builds the orthographic projection matrix. Opposite planes must
    /// differ.
    pub fn from_orthographic(left: S, right: S, bottom: S, top: S, near: S, far: S) -> (r: Self)
        ensures
            r == Self::orthographic(left, right, bottom, top, near, far),
    {
        let zero = S::zero();
        let one = S::one();
        let two = one.add(one);
        Matrix4x4 {
            c0r0: two.div(right.sub(left)),
            c0r1: zero,
            c0r2: zero,
            c0r3: zero,
            c1r0: zero,
            c1r1: two.div(top.sub(bottom)),
            c1r2: zero,
            c1r3: zero,
            c2r0: zero,
            c2r1: zero,
            c2r2: two.neg().div(far.sub(near)),
            c2r3: zero,
            c3r0: right.add(left).neg().div(right.sub(left)),
            c3r1: top.add(bottom).neg().div(top.sub(bottom)),
            c3r2: far.add(near).neg().div(far.sub(near)),
            c3r3: one,
        }
    }
}

/// A perspective projection, given by the planes of its frustum.
#[derive(Clone, Copy, Debug, PartialEq)]
pub struct Perspective3<S> {
    pub left: S,
    pub right: S,
    pub bottom: S,
    pub top: S,
    pub near: S,
    pub far: S,
    pub matrix: Matrix4x4<S>,
}

/// An orthographic projection, given by the planes of its viewing box.
#[derive(Clone, Copy, Debug, PartialEq)]
pub struct Orthographic3<S> {
    pub left: S,
    pub right: S,
    pub bottom: S,
    pub top: S,
    pub near: S,
    pub far: S,
    pub matrix: Matrix4x4<S>,
}

impl<S: ScalarSigned> Perspective3<S> {
    /// The projection for the given planes, with its matrix.
    pub open spec fn of(left: S, right: S, bottom: S, top: S, near: S, far: S) -> Self {
        Perspective3 {
            left,
            right,
            bottom,
            top,
            near,
            far,
            matrix: Matrix4x4::perspective(left, right, bottom, top, near, far),
        }
    }

    /// The image of the position `(x, y, z)`: the matrix applied to its
    /// homogeneous coordinates, then divided by the last coordinate, which is
    /// `-z`.
    pub open spec fn project(self, v: Vector3<S>) -> Vector3<S> {
        let m = self.matrix;
        let inverse_w = S::one_value().negated().over(v.z);
        Vector3 {
            x: m.c0r0.times(v.x).plus(m.c2r0.times(v.z)).times(inverse_w),
            y: m.c1r1.times(v.y).plus(m.c2r1.times(v.z)).times(inverse_w),
            z: m.c2r2.times(v.z).plus(m.c3r2).times(inverse_w),
        }
    }

    /// The position whose image is `(x, y, z)`: the inverse matrix applied
    /// to its homogeneous coordinates, then divided by the last coordinate.
    pub open spec fn unproject(self, v: Vector3<S>) -> Vector3<S> {
        let m = self.matrix;
        let one = S::one_value();
        let w = v.z.over(m.c3r2).plus(m.c2r2.over(m.c3r2));
        let inverse_w = one.over(w);
        Vector3 {
            x: v.x.over(m.c0r0).plus(m.c2r0.over(m.c0r0)).times(inverse_w),
            y: v.y.over(m.c1r1).plus(m.c2r1.over(m.c1r1)).times(inverse_w),
            z: inverse_w.negated(),
        }
    }

    /// Builds the projection for the frustum with the given planes.
    pub fn new(left: S, right: S, bottom: S, top: S, near: S, far: S) -> (r: Self)
        ensures
            r == Self::of(left, right, bottom, top, near, far),
    {
        Perspective3 {
            left,
            right,
            bottom,
            top,
            near,
            far,
            matrix: Matrix4x4::from_perspective(left, right, bottom, top, near, far),
        }
    }

    /// The matrix of the projection.
    pub fn matrix(&self) -> (r: &Matrix4x4<S>)
        ensures
            *r == self.matrix,
    {
        &self.matrix
    }

    fn project_position(&self, v: &Vector3<S>) -> (r: Vector3<S>)
        ensures
            r == self.project(*v),
    {
        let m = &self.matrix;
        let inverse_w = S::one().neg().div(v.z);
        Vector3 {
            x: m.c0r0.mul(v.x).add(m.c2r0.mul(v.z)).mul(inverse_w),
            y: m.c1r1.mul(v.y).add(m.c2r1.mul(v.z)).mul(inverse_w),
            z: m.c2r2.mul(v.z).add(m.c3r2).mul(inverse_w),
        }
    }

    fn unproject_position(&self, v: &Vector3<S>) -> (r: Vector3<S>)
        ensures
            r == self.unproject(*v),
    {
        let m = &self.matrix;
        let w = v.z.div(m.c3r2).add(m.c2r2.div(m.c3r2));
        let inverse_w = S::one().div(w);
        Vector3 {
            x: v.x.div(m.c0r0).add(m.c2r0.div(m.c0r0)).mul(inverse_w),
            y: v.y.div(m.c1r1).add(m.c2r1.div(m.c1r1)).mul(inverse_w),
            z: inverse_w.neg(),
        }
    }

    /// Projects a point of the frustum into the canonical view volume.
    pub fn project_point(&self, point: &Point3<S>) -> (r: Point3<S>)
        ensures
            r == Point3::at(self.project(point.position())),
    {
        Point3::from_vector(&self.project_position(&point.to_vector()))
    }

    /// Projects a vector as the position it points to.
    pub fn project_vector(&self, vector: &Vector3<S>) -> (r: Vector3<S>)
        ensures
            r == self.project(*vector),
    {
        self.project_position(vector)
    }

    /// Takes a point of the canonical view volume back into the frustum.
    pub fn unproject_point(&self, point: &Point3<S>) -> (r: Point3<S>)
        ensures
            r == Point3::at(self.unproject(point.position())),
    {
        Point3::from_vector(&self.unproject_position(&point.to_vector()))
    }

    /// Takes a projected vector back.
    pub fn unproject_vector(&self, vector: &Vector3<S>) -> (r: Vector3<S>)
        ensures
            r == self.unproject(*vector),
    {
        self.unproject_position(vector)
    }
}

impl<S: ScalarSigned> Orthographic3<S> {
    /// The projection for the given planes, with its matrix.
    pub open spec fn of(left: S, right: S, bottom: S, top: S, near: S, far: S) -> Self {
        Orthographic3 {
            left,
            right,
            bottom,
            top,
            near,
            far,
            matrix: Matrix4x4::orthographic(left, right, bottom, top, near, far),
        }
    }

    /// The image of the vector `v`: each coordinate is stretched by its
    /// diagonal entry of the matrix.
    pub open spec fn project(self, v: Vector3<S>) -> Vector3<S> {
        let m = self.matrix;
        Vector3 { x: m.c0r0.times(v.x), y: m.c1r1.times(v.y), z: m.c2r2.times(v.z) }
    }

    /// The image of the point `p`: stretched as a vector, then moved by the
    /// last column of the matrix.
    pub open spec fn project_at(self, p: Point3<S>) -> Point3<S> {
        let m = self.matrix;
        Point3 {
            x: m.c0r0.times(p.x).plus(m.c3r0),
            y: m.c1r1.times(p.y).plus(m.c3r1),
            z: m.c2r2.times(p.z).plus(m.c3r2),
        }
    }

    /// Half the extent of the viewing box along each axis, the depth
    /// negated: the diagonal of the inverse matrix.
    pub open spec fn half_extent(self) -> Vector3<S> {
        let half = S::one_value().over(S::one_value().plus(S::one_value()));
        Vector3 {
            x: half.times(self.right.minus(self.left)),
            y: half.times(self.top.minus(self.bottom)),
            z: half.negated().times(self.far.minus(self.near)),
        }
    }

    /// The centre of the viewing box, the depth negated: the last column of
    /// the inverse matrix.
    pub open spec fn centre(self) -> Vector3<S> {
        let half = S::one_value().over(S::one_value().plus(S::one_value()));
        Vector3 {
            x: half.times(self.left.plus(self.right)),
            y: half.times(self.bottom.plus(self.top)),
            z: half.negated().times(self.far.plus(self.near)),
        }
    }

    /// The vector whose image is `v`.
    pub open spec fn unproject(self, v: Vector3<S>) -> Vector3<S> {
        let e = self.half_extent();
        Vector3 { x: e.x.times(v.x), y: e.y.times(v.y), z: e.z.times(v.z) }
    }

    /// The point whose image is `p`.
    pub open spec fn unproject_at(self, p: Point3<S>) -> Point3<S> {
        Point3::at(self.unproject(p.position()).plus(self.centre()))
    }

    /// Builds the projection for the viewing box with the given planes.
    pub fn new(left: S, right: S, bottom: S, top: S, near: S, far: S) -> (r: Self)
        ensures
            r == Self::of(left, right, bottom, top, near, far),
    {
        Orthographic3 {
            left,
            right,
            bottom,
            top,
            near,
            far,
            matrix: Matrix4x4::from_orthographic(left, right, bottom, top, near, far),
        }
    }

    /// The matrix of the projection.
    pub fn matrix(&self) -> (r: &Matrix4x4<S>)
        ensures
            *r == self.matrix,
    {
        &self.matrix
    }

    fn inverse_diagonal(&self) -> (r: Vector3<S>)
        ensures
            r == self.half_extent(),
    {
        let half = S::one().div(S::one().add(S::one()));
        Vector3 {
            x: half.mul(self.right.sub(self.left)),
            y: half.mul(self.top.sub(self.bottom)),
            z: half.neg().mul(self.far.sub(self.near)),
        }
    }

    fn inverse_offset(&self) -> (r: Vector3<S>)
        ensures
            r == self.centre(),
    {
        let half = S::one().div(S::one().add(S::one()));
        Vector3 {
            x: half.mul(self.left.add(self.right)),
            y: half.mul(self.bottom.add(self.top)),
            z: half.neg().mul(self.far.add(self.near)),
        }
    }

    /// Projects a point of the viewing box into the canonical view volume.
    pub fn project_point(&self, point: &Point3<S>) -> (r: Point3<S>)
        ensures
            r == self.project_at(*point),
    {
        let m = &self.matrix;
        Point3 {
            x: m.c0r0.mul(point.x).add(m.c3r0),
            y: m.c1r1.mul(point.y).add(m.c3r1),
            z: m.c2r2.mul(point.z).add(m.c3r2),
        }
    }

    /// Projects a vector: the translation of the projection does not act on
    /// it.
    pub fn project_vector(&self, vector: &Vector3<S>) -> (r: Vector3<S>)
        ensures
            r == self.project(*vector),
    {
        let m = &self.matrix;
        Vector3 { x: m.c0r0.mul(vector.x), y: m.c1r1.mul(vector.y), z: m.c2r2.mul(vector.z) }
    }

    /// Takes a point of the canonical view volume back into the viewing box.
    pub fn unproject_point(&self, point: &Point3<S>) -> (r: Point3<S>)
        ensures
            r == self.unproject_at(*point),
    {
        let e = self.inverse_diagonal();
        let c = self.inverse_offset();
        Point3 {
            x: e.x.mul(point.x).add(c.x),
            y: e.y.mul(point.y).add(c.y),
            z: e.z.mul(point.z).add(c.z),
        }
    }

    /// Takes a projected vector back.
    pub fn unproject_vector(&self, vector: &Vector3<S>) -> (r: Vector3<S>)
        ensures
            r == self.unproject(*vector),
    {
        let e = self.inverse_diagonal();
        Vector3 { x: e.x.mul(vector.x), y: e.y.mul(vector.y), z: e.z.mul(vector.z) }
    }
}


/// An affine map `x -> a x + b` is undone by `y -> a' y + b'` when
/// `a' a = 1` and `a' b + b' = 0`.
proof fn lemma_affine_map_undone<S: Field>(a: S, b: S, a2: S, b2: S, x: S)
    requires
        a2.times(a) == S::one_value(),
        a2.times(b).plus(b2) == S::zero_value(),
    ensures
        a2.times(a.times(x).plus(b)).plus(b2) == x,
        a2.times(a.times(x)) == x,
{
    S::law_distributes(a2, a.times(x), b);
    S::law_times_associates(a2, a, x);
    lemma_one_times(x);
    S::law_plus_associates(x, a2.times(b), b2);
    S::law_plus_zero(x);
}

/// Half an extent times the reciprocal of the extent, doubled, is one; and
/// half an extent times the centre over the extent cancels half the centre.
proof fn lemma_orthographic_coefficients<S: Field>(low: S, high: S, half: S)
    requires
        !high.minus(low).vanishes(),
        half.times(S::one_value().plus(S::one_value())) == S::one_value(),
    ensures
        ({
            let two = S::one_value().plus(S::one_value());
            let extent = high.minus(low);
            &&& half.times(extent).times(two.over(extent)) == S::one_value()
            &&& half.times(extent).times(high.plus(low).negated().over(extent)).plus(
                half.times(low.plus(high)),
            ) == S::zero_value()
            &&& half.negated().times(extent).times(two.negated().over(extent)) == S::one_value()
            &&& half.negated().times(extent).times(high.plus(low).negated().over(extent)).plus(
                half.negated().times(high.plus(low)),
            ) == S::zero_value()
        }),
{
    let two = S::one_value().plus(S::one_value());
    let extent = high.minus(low);
    let sum = high.plus(low);
    S::law_over(two, extent);
    S::law_over(two.negated(), extent);
    S::law_over(sum.negated(), extent);
    S::law_times_associates(half, extent, two.over(extent));
    S::law_times_associates(half, extent, sum.negated().over(extent));
    S::law_times_associates(half.negated(), extent, two.negated().over(extent));
    S::law_times_associates(half.negated(), extent, sum.negated().over(extent));
    // half (-sum) + half sum = 0
    S::law_plus_commutes(low, high);
    S::law_distributes(half, sum.negated(), sum);
    lemma_negated_plus(sum);
    lemma_times_zero(half);
    // (-half) (-two) = half two
    lemma_negated_times(half, two.negated());
    lemma_times_negated(half, two);
    lemma_negated_twice(half.times(two));
    // (-half) (-sum) + (-half) sum = 0
    S::law_distributes(half.negated(), sum.negated(), sum);
    lemma_times_zero(half.negated());
}

/// Unprojecting undoes the orthographic projection, for a viewing box whose
/// opposite planes differ, over a field in which one plus one is not zero.
pub proof fn lemma_orthographic_unproject_undoes<S: Field>(
    projection: Orthographic3<S>,
    p: Point3<S>,
    v: Vector3<S>,
)
    requires
        projection == Orthographic3::of(
            projection.left,
            projection.right,
            projection.bottom,
            projection.top,
            projection.near,
            projection.far,
        ),
        !projection.right.minus(projection.left).vanishes(),
        !projection.top.minus(projection.bottom).vanishes(),
        !projection.far.minus(projection.near).vanishes(),
        !S::one_value().plus(S::one_value()).vanishes(),
    ensures
        projection.unproject_at(projection.project_at(p)) == p,
        projection.unproject(projection.project(v)) == v,
{
    let two = S::one_value().plus(S::one_value());
    let half = S::one_value().over(two);
    let m = projection.matrix;
    let e = projection.half_extent();
    let c = projection.centre();
    S::law_over(S::one_value(), two);
    S::law_times_commutes(two, half);
    lemma_orthographic_coefficients(projection.left, projection.right, half);
    lemma_orthographic_coefficients(projection.bottom, projection.top, half);
    lemma_orthographic_coefficients(projection.near, projection.far, half);
    lemma_affine_map_undone(m.c0r0, m.c3r0, e.x, c.x, p.x);
    lemma_affine_map_undone(m.c1r1, m.c3r1, e.y, c.y, p.y);
    lemma_affine_map_undone(m.c2r2, m.c3r2, e.z, c.z, p.z);
    lemma_affine_map_undone(m.c0r0, m.c3r0, e.x, c.x, v.x);
    lemma_affine_map_undone(m.c1r1, m.c3r1, e.y, c.y, v.y);
    lemma_affine_map_undone(m.c2r2, m.c3r2, e.z, c.z, v.z);
}


/// `a (p / a + q / a) = p + q`, for `a` other than zero.
proof fn lemma_times_sum_of_quotients<S: Field>(a: S, p: S, q: S)
    requires
        !a.vanishes(),
    ensures
        a.times(p.over(a).plus(q.over(a))) == p.plus(q),
{
    S::law_distributes(a, p.over(a), q.over(a));
    S::law_over(p, a);
    S::law_over(q, a);
}

/// `(a x + b z) i + b = a (x i)`, where `z i = -1`.
proof fn lemma_perspective_divide<S: Field>(a: S, b: S, x: S, z: S, i: S)
    requires
        z.times(i) == S::one_value().negated(),
    ensures
        a.times(x).plus(b.times(z)).times(i).plus(b) == a.times(x.times(i)),
{
    lemma_distributes_right(a.times(x), b.times(z), i);
    S::law_times_associates(a, x, i);
    S::law_times_associates(b, z, i);
    lemma_times_negated(b, S::one_value());
    S::law_times_one(b);
    S::law_plus_associates(a.times(x.times(i)), b.negated(), b);
    lemma_negated_plus(b);
    S::law_plus_zero(a.times(x.times(i)));
}

/// Unprojecting undoes the perspective projection of a position off the
/// plane of the eye, for a matrix whose entries on the diagonal and in the
/// last column are not zero.
pub proof fn lemma_perspective_unproject_undoes<S: Field>(
    projection: Perspective3<S>,
    v: Vector3<S>,
)
    requires
        !v.z.vanishes(),
        !projection.matrix.c0r0.vanishes(),
        !projection.matrix.c1r1.vanishes(),
        !projection.matrix.c3r2.vanishes(),
    ensures
        projection.unproject(projection.project(v)) == v,
{
    let (zero, one) = (S::zero_value(), S::one_value());
    let m = projection.matrix;
    let i = one.negated().over(v.z);
    let image = projection.project(v);
    // z i = -1, so i is not zero
    S::law_over(one.negated(), v.z);
    S::law_vanishes(i);
    S::law_nontrivial();
    lemma_times_zero(v.z);
    lemma_negated_zero::<S>();
    lemma_negated_twice(one);
    // the last coordinate w of the inverse image is i:
    // f w = Z + e = (e z + f) i + e = f i
    let w = image.z.over(m.c3r2).plus(m.c2r2.over(m.c3r2));
    lemma_times_sum_of_quotients(m.c3r2, image.z, m.c2r2);
    lemma_distributes_right(m.c2r2.times(v.z), m.c3r2, i);
    S::law_times_associates(m.c2r2, v.z, i);
    lemma_times_negated(m.c2r2, one);
    S::law_times_one(m.c2r2);
    S::law_plus_commutes(m.c2r2.negated(), m.c3r2.times(i));
    S::law_plus_associates(m.c3r2.times(i), m.c2r2.negated(), m.c2r2);
    lemma_negated_plus(m.c2r2);
    S::law_plus_zero(m.c3r2.times(i));
    lemma_cancel_factor(m.c3r2, w, i);
    // so 1 / w = -z
    let k = one.over(w);
    S::law_over(one, i);
    S::law_times_commutes(v.z, i);
    lemma_times_negated(i, v.z);
    lemma_cancel_factor(i, k, v.z.negated());
    lemma_negated_twice(v.z);
    // x and y
    lemma_times_sum_of_quotients(m.c0r0, image.x, m.c2r0);
    lemma_perspective_divide(m.c0r0, m.c2r0, v.x, v.z, i);
    lemma_cancel_factor(m.c0r0, image.x.over(m.c0r0).plus(m.c2r0.over(m.c0r0)), v.x.times(i));
    S::law_times_associates(v.x, i, k);
    S::law_times_one(v.x);
    lemma_times_sum_of_quotients(m.c1r1, image.y, m.c2r1);
    lemma_perspective_divide(m.c1r1, m.c2r1, v.y, v.z, i);
    lemma_cancel_factor(m.c1r1, image.y.over(m.c1r1).plus(m.c2r1.over(m.c1r1)), v.y.times(i));
    S::law_times_associates(v.y, i, k);
    S::law_times_one(v.y);
}

} // verus!
