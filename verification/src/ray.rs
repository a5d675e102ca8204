//! Rays: a point of origin and a direction.

use vstd::prelude::*;
use crate::float_service::{Scalar, exact};
use crate::matrix::{Matrix, apply, apply_defined};
use crate::tuple::Tuple;

verus! {

/// A ray: it starts at `origin`, a point, and runs along `direction`, a
/// vector.
#[derive(Debug, Clone, Copy)]
pub struct Ray<T> {
    pub origin: Tuple<T>,
    pub direction: Tuple<T>,
}

impl<T: Scalar> Ray<T> {
    /// The point of the ray at parameter `distance`: the origin plus the
    /// direction times `distance`.
    pub open spec fn point_at(self, distance: T) -> Tuple<T> {
        self.origin.plus(self.direction.scaled(distance))
    }

    /// The operations of [`Self::point_at`] may be applied.
    pub open spec fn point_defined(self, distance: T) -> bool {
        &&& self.direction.scaled_defined(distance)
        &&& self.origin.plus_defined(self.direction.scaled(distance))
    }

    /// The ray whose origin and direction are those of this one, each with
    /// the matrix `s` applied to it.
    pub open spec fn moved(self, s: Seq<Seq<T>>) -> Ray<T> {
        Ray { origin: apply(s, self.origin), direction: apply(s, self.direction) }
    }

    /// The operations of [`Self::moved`] may be applied.
    pub open spec fn moved_defined(self, s: Seq<Seq<T>>) -> bool {
        &&& apply_defined(s, self.origin)
        &&& apply_defined(s, self.direction)
    }

    /// The ray from `origin` along `direction`.
    pub fn new(origin: Tuple<T>, direction: Tuple<T>) -> (r: Self)
        ensures
            r == (Ray { origin, direction }),
    {
        Self { origin, direction }
    }

    /// The point of the ray at parameter `distance`.
    pub fn position(&self, distance: T) -> (r: Tuple<T>)
        requires
            exact::<T>(),
            self.point_defined(distance),
        ensures
            r == self.point_at(distance),
    {
        self.origin + self.direction * distance
    }

    /// The ray with the matrix applied to its origin and to its direction.
    /// A translation moves the origin, whose weight is one, and leaves the
    /// direction, whose weight is zero.
    pub fn transform(&self, translation: Matrix<T, 4>) -> (r: Self)
        requires
            exact::<T>(),
            self.moved_defined(translation@),
        ensures
            r == self.moved(translation@),
    {
        Self { origin: translation * self.origin, direction: translation * self.direction }
    }
}

} // verus!
