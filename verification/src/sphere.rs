//! The unit sphere under a transform, and where a ray meets it.
//!
//! A sphere has radius one and its center at the origin of its own space;
//! its transform places it in the world. A ray is brought into the space of
//! the sphere by the inverse of the transform, and the parameters at which
//! it meets the sphere are the roots of a quadratic.

use vstd::prelude::*;
use vstd::std_specs::ops::{AddSpec, SubSpec, MulSpec, DivSpec, NegSpec};
use num::Float;
use crate::float_service::{Scalar, exact, lit, lt, same, constant, square_root};
use crate::intersection::{Intersection, IntersectionObject, Intersections, IntersectError};
use crate::matrix::{
    Matrix, grid, identity_entry, inverse_defined, has_inverse, inverse_view,
};
use crate::ray::Ray;
use crate::tuple::Tuple;

verus! {

/// A sphere: a number that tells it from others, and the transform that
/// places it in the world.
#[derive(Debug, Clone, Copy)]
pub struct Sphere<T> {
    pub id: i32,
    pub transformation: Matrix<T, 4>,
}

/// The center of every sphere in its own space: the point at the origin.
pub open spec fn center<T: Scalar>() -> Tuple<T> {
    Tuple { x: lit::<T>(0), y: lit::<T>(0), z: lit::<T>(0), w: lit::<T>(1) }
}

/// The vector from the center of the sphere to the origin of a ray that is
/// in the space of the sphere.
pub open spec fn from_center<T: Scalar>(local: Ray<T>) -> Tuple<T> {
    local.origin.minus(center::<T>())
}

/// The first coefficient of the quadratic: the direction dotted with itself.
pub open spec fn quadratic_a<T: Scalar>(local: Ray<T>) -> T {
    local.direction.dot(local.direction)
}

/// The second coefficient: twice the direction dotted with the vector from
/// the center.
pub open spec fn quadratic_b<T: Scalar>(local: Ray<T>) -> T {
    local.direction.dot(from_center(local)).mul_spec(lit::<T>(2))
}

/// The third coefficient: the vector from the center dotted with itself,
/// less one.
pub open spec fn quadratic_c<T: Scalar>(local: Ray<T>) -> T {
    from_center(local).dot(from_center(local)).sub_spec(lit::<T>(1))
}

/// The discriminant of the quadratic: `b * b - 4 * a * c`.
pub open spec fn discriminant<T: Scalar>(local: Ray<T>) -> T {
    quadratic_b(local).mul_spec(quadratic_b(local)).sub_spec(
        lit::<T>(4).mul_spec(quadratic_a(local)).mul_spec(quadratic_c(local)),
    )
}

/// The operations of the three coefficients and of [`discriminant`] may be
/// applied.
pub open spec fn quadratic_defined<T: Scalar>(local: Ray<T>) -> bool {
    &&& local.origin.minus_defined(center::<T>())
    &&& local.direction.dot_defined(local.direction)
    &&& local.direction.dot_defined(from_center(local))
    &&& local.direction.dot(from_center(local)).mul_req(lit::<T>(2))
    &&& from_center(local).dot_defined(from_center(local))
    &&& from_center(local).dot(from_center(local)).sub_req(lit::<T>(1))
    &&& quadratic_b(local).mul_req(quadratic_b(local))
    &&& lit::<T>(4).mul_req(quadratic_a(local))
    &&& lit::<T>(4).mul_spec(quadratic_a(local)).mul_req(quadratic_c(local))
    &&& quadratic_b(local).mul_spec(quadratic_b(local)).sub_req(
        lit::<T>(4).mul_spec(quadratic_a(local)).mul_spec(quadratic_c(local)),
    )
}

/// The lower root of the quadratic, given the square root of its
/// discriminant: `(-b - root) / (2 * a)`.
pub open spec fn near_root<T: Scalar>(a: T, b: T, root: T) -> T {
    b.neg_spec().sub_spec(root).div_spec(lit::<T>(2).mul_spec(a))
}

/// The upper root of the quadratic, given the square root of its
/// discriminant: `(-b + root) / (2 * a)`.
pub open spec fn far_root<T: Scalar>(a: T, b: T, root: T) -> T {
    b.neg_spec().add_spec(root).div_spec(lit::<T>(2).mul_spec(a))
}

/// The operations of [`near_root`] and of [`far_root`] may be applied.
pub open spec fn roots_defined<T: Scalar>(a: T, b: T, root: T) -> bool {
    &&& b.neg_req()
    &&& b.neg_spec().sub_req(root)
    &&& b.neg_spec().add_req(root)
    &&& lit::<T>(2).mul_req(a)
    &&& b.neg_spec().sub_spec(root).div_req(lit::<T>(2).mul_spec(a))
    &&& b.neg_spec().add_spec(root).div_req(lit::<T>(2).mul_spec(a))
}

/// The two intersections of a ray with `sphere`, given the coefficients of
/// the quadratic and the square root of its discriminant: the lower root
/// first.
pub open spec fn both_roots<T: Scalar>(sphere: Sphere<T>, a: T, b: T, root: T) -> Seq<
    Intersection<T, Sphere<T>>,
> {
    seq![
        Intersection { value: near_root(a, b, root), object: sphere },
        Intersection { value: far_root(a, b, root), object: sphere },
    ]
}

/// The first two coefficients of the quadratic of a ray that is in the
/// space of the sphere, and its discriminant.
pub fn quadratic<T: Scalar>(local: &Ray<T>) -> (r: (T, T, T))
    requires
        exact::<T>(),
        quadratic_defined(*local),
    ensures
        r.0 == quadratic_a(*local),
        r.1 == quadratic_b(*local),
        r.2 == discriminant(*local),
{
    let sphere_to_ray = local.origin - Tuple::<T>::new_point(
        constant(0),
        constant(0),
        constant(0),
    );
    let a = local.direction.dot_product(&local.direction);
    let b = local.direction.dot_product(&sphere_to_ray) * constant::<T>(2);
    let c = sphere_to_ray.dot_product(&sphere_to_ray) - constant::<T>(1);
    let discriminant = b * b - constant::<T>(4) * a * c;
    (a, b, discriminant)
}

/// The two roots of the quadratic, the lower first, given the square root
/// of its discriminant.
pub fn roots<T: Scalar>(a: T, b: T, root: T) -> (r: (T, T))
    requires
        exact::<T>(),
        roots_defined(a, b, root),
    ensures
        r.0 == near_root(a, b, root),
        r.1 == far_root(a, b, root),
{
    let two: T = constant(2);
    ((b.neg() - root) / (two * a), (b.neg() + root) / (two * a))
}

impl<T: Scalar> Sphere<T> {
    /// The unit sphere at the origin of the world: its transform is the
    /// identity.
    pub fn new(id: i32) -> (r: Self)
        ensures
            r.id == id,
            exact::<T>() ==> r.transformation@ == grid(|i: int, j: int| identity_entry::<T>(i, j)),
    {
        Self { id, transformation: Matrix::<T, 4>::identity_matrix() }
    }

    /// Replaces the transform.
    pub fn set_translation(&mut self, transformation: Matrix<T, 4>)
        ensures
            final(self).id == old(self).id,
            final(self).transformation == transformation,
    {
        self.transformation = transformation
    }

    /// Two spheres are equal where their numbers are and their transforms
    /// agree within the tolerance.
    pub fn eq(&self, other: &Self) -> (r: bool)
        requires
            exact::<T>(),
            self.transformation.approx_defined(other.transformation),
        ensures
            r == (self.id == other.id && self.transformation.approx(other.transformation)),
    {
        self.id == other.id && self.transformation.eq(&other.transformation)
    }
}

impl<T: Scalar> Intersection<T, Sphere<T>> {
    /// Two intersections with spheres are equal where their parameters are
    /// equal as `T` compares them and their spheres are equal.
    pub fn eq(&self, other: &Self) -> (r: bool)
        requires
            exact::<T>(),
            self.object.transformation.approx_defined(other.object.transformation),
        ensures
            r == (same(self.value, other.value) && self.object.id == other.object.id
                && self.object.transformation.approx(other.object.transformation)),
    {
        self.value == other.value && self.object.eq(&other.object)
    }
}

impl<T: Scalar> IntersectionObject<T> for Sphere<T> {
    type Object = Sphere<T>;

    open spec fn intersect_defined(&self, ray: Ray<T>) -> bool {
        &&& exact::<T>()
        &&& inverse_defined(self.transformation@)
        &&& has_inverse(self.transformation@) ==> {
            let local = ray.moved(inverse_view(self.transformation@));
            &&& ray.moved_defined(inverse_view(self.transformation@))
            &&& quadratic_defined(local)
            &&& !lt(discriminant(local), lit::<T>(0)) ==> forall|root: T|
                roots_defined(quadratic_a(local), quadratic_b(local), root)
        }
    }

    open spec fn normal_defined(&self, vector: Tuple<T>) -> bool {
        &&& exact::<T>()
        &&& vector.minus_defined(center::<T>())
        &&& vector.minus(center::<T>()).norm_defined()
        &&& forall|m: T| vector.minus(center::<T>()).divided_defined(m)
    }

    /// Where the ray meets the sphere. Without an inverse of the transform
    /// there is no answer. With one, the ray is brought into the space of
    /// the sphere; where the discriminant of its quadratic lies below zero
    /// the ray misses; otherwise the two roots come back, the lower first,
    /// each with a copy of the sphere. The square root of the discriminant
    /// is taken outside this crate: the roots are those of [`both_roots`]
    /// for the scalar that came back.
    fn intersect(&self, ray: Ray<T>) -> (r: Result<
        Intersections<T, Self::Object, 2>,
        IntersectError,
    >) where T: Float
        ensures
            !has_inverse(self.transformation@) ==> r == Err::<
                Intersections<T, Sphere<T>, 2>,
                IntersectError,
            >(IntersectError::TransformNotInvertible),
            has_inverse(self.transformation@) && lt(
                discriminant(ray.moved(inverse_view(self.transformation@))),
                lit::<T>(0),
            ) ==> r == Err::<Intersections<T, Sphere<T>, 2>, IntersectError>(
                IntersectError::NoIntersection,
            ),
            has_inverse(self.transformation@) && !lt(
                discriminant(ray.moved(inverse_view(self.transformation@))),
                lit::<T>(0),
            ) ==> r.is_ok() && exists|root: T|
                r.unwrap().data@ == #[trigger] both_roots(
                    *self,
                    quadratic_a(ray.moved(inverse_view(self.transformation@))),
                    quadratic_b(ray.moved(inverse_view(self.transformation@))),
                    root,
                ),
    {
        let inverse = match self.transformation.inverse() {
            Ok(inv) => inv,
            Err(_) => {
                return Err(IntersectError::TransformNotInvertible);
            },
        };
        let local = ray.transform(inverse);
        let (a, b, discriminant) = quadratic(&local);
        let zero: T = constant(0);
        if discriminant < zero {
            Err(IntersectError::NoIntersection)
        } else {
            let root = square_root(discriminant);
            let (near, far) = roots(a, b, root);
            let found = Intersections::new(
                [Intersection::new(near, *self), Intersection::new(far, *self)],
            );
            assert(found.data@ =~= both_roots(*self, a, b, root));
            Ok(found)
        }
    }

    /// The normal at a point: the vector from the center to the point,
    /// divided by its magnitude, taken in the space the point is given in.
    /// The magnitude is a square root taken outside this crate: the result
    /// is the quotient by the scalar that came back.
    fn normal_at(&self, vector: Tuple<T>) -> (r: Tuple<T>) where T: Float
        ensures
            exists|m: T| r == #[trigger] vector.minus(center::<T>()).divided(m),
    {
        let origin = Tuple::<T>::new_point(constant(0), constant(0), constant(0));
        (vector - origin).normalize()
    }
}

} // verus!
