//! Intersections of a ray with an object, and the choice of the one that is
//! seen.

use vstd::prelude::*;
use std::ops::Index;
use num::Float;
use crate::float_service::{Scalar, ordered, lit, gt, constant};
use crate::ray::Ray;

use crate::tuple::Tuple;

verus! {

/// Why a ray and an object gave no intersections.
#[derive(Debug, Clone, Copy, PartialEq, Eq)]
pub enum IntersectError {
    /// The transform of the object has no inverse.
    TransformNotInvertible,
    /// The ray misses the object.
    NoIntersection,
}

/// An object that a ray can meet.
pub trait IntersectionObject<T: Scalar>: Sized {
    /// What an intersection of a ray with this object refers to.
    type Object: Copy;

    /// The operations that [`Self::intersect`] makes on `ray` may be applied.
    spec fn intersect_defined(&self, ray: Ray<T>) -> bool;

    /// The operations that [`Self::normal_at`] makes on `vector` may be
    /// applied.
    spec fn normal_defined(&self, vector: Tuple<T>) -> bool;

    /// The two places where the ray meets the object, or why there are none.
    fn intersect(&self, ray: Ray<T>) -> (r: Result<
        Intersections<T, Self::Object, 2>,
        IntersectError,
    >) where T: Float
        requires
            self.intersect_defined(ray),
    ;

    /// The normal of the surface at a point.
    fn normal_at(&self, vector: Tuple<T>) -> (r: Tuple<T>) where T: Float
        requires
            self.normal_defined(vector),
    ;
}

/// One place where a ray meets an object: the parameter of the ray there,
/// and the object.
#[derive(Debug, Clone, Copy)]
pub struct Intersection<T, O> {
    pub value: T,
    pub object: O,
}

impl<T: Scalar, O: Copy> Intersection<T, O> {
    /// The intersection at parameter `value` with `object`.
    pub fn new(value: T, object: O) -> (r: Self)
        ensures
            r == (Intersection { value, object }),
    {
        Self { value, object }
    }
}

/// `N` intersections, in no particular order.
#[derive(Debug, Clone, Copy)]
pub struct Intersections<T, O, const N: usize> {
    pub data: [Intersection<T, O>; N],
}

/// The parameter lies strictly in front of the origin of the ray.
pub open spec fn in_front<T: Scalar>(value: T) -> bool {
    gt(value, lit::<T>(0))
}

/// The place of the hit among the first `k` intersections: the scan from
/// the first on keeps what it has until it meets an intersection in front
/// of the origin that is strictly nearer, or that is the first in front.
pub open spec fn hit_index<T: Scalar, O>(data: Seq<Intersection<T, O>>, k: nat) -> Option<int>
    decreases k,
{
    if k == 0 {
        None
    } else {
        let before = hit_index(data, (k - 1) as nat);
        let value = data[k - 1].value;
        if in_front(value) && (before.is_none() || gt(data[before.unwrap()].value, value)) {
            Some(k - 1)
        } else {
            before
        }
    }
}

/// The order of `T` is strict and weak: nothing lies above itself, above is
/// transitive, and where `a` lies above `c` but not above `b`, `b` lies
/// above `c`.
pub open spec fn strict_weak_order<T: Scalar>() -> bool {
    &&& forall|a: T| !#[trigger] gt(a, a)
    &&& forall|a: T, b: T, c: T| #[trigger] gt(a, b) && #[trigger] gt(b, c) ==> gt(a, c)
    &&& forall|a: T, b: T, c: T| !#[trigger] gt(a, b) && #[trigger] gt(a, c) ==> gt(b, c)
}

/// The scan stays inside what it has seen, and what it finds lies in front
/// of the origin; it finds nothing exactly where nothing lies in front.
pub proof fn lemma_hit_index_in_front<T: Scalar, O>(data: Seq<Intersection<T, O>>, k: nat)
    requires
        k <= data.len(),
    ensures
        match hit_index(data, k) {
            Some(i) => 0 <= i < k && in_front(data[i].value),
            None => forall|j: int| 0 <= j < k ==> !in_front(#[trigger] data[j].value),
        },
    decreases k,
{
    if k > 0 {
        lemma_hit_index_in_front(data, (k - 1) as nat);
    }
}

/// The hit is the nearest intersection in front of the origin, and the
/// first of those that are as near: no intersection in front lies strictly
/// below it, and every earlier one in front lies strictly above it.
pub proof fn lemma_hit_is_nearest<T: Scalar, O>(data: Seq<Intersection<T, O>>, k: nat)
    requires
        k <= data.len(),
        strict_weak_order::<T>(),
        hit_index(data, k).is_some(),
    ensures
        forall|j: int|
            0 <= j < k && in_front(#[trigger] data[j].value) ==> !gt(
                data[hit_index(data, k).unwrap()].value,
                data[j].value,
            ),
        forall|j: int|
            0 <= j < hit_index(data, k).unwrap() && in_front(#[trigger] data[j].value) ==> gt(
                data[j].value,
                data[hit_index(data, k).unwrap()].value,
            ),
    decreases k,
{
    if k > 0 {
        lemma_hit_index_in_front(data, (k - 1) as nat);
        let before = hit_index(data, (k - 1) as nat);
        if before.is_some() {
            lemma_hit_is_nearest(data, (k - 1) as nat);
        }
    }
}

impl<T: Scalar, O: Copy, const N: usize> Intersections<T, O, N> {
    /// The set of the intersections given.
    pub fn new(data: [Intersection<T, O>; N]) -> (r: Self)
        ensures
            r.data == data,
    {
        Self { data }
    }

    /// The intersection that is seen: the nearest of those whose parameter
    /// lies strictly in front of the origin, and the first of them where
    /// several are as near. There is none where no parameter lies in front.
    pub fn hit(&self) -> (r: Option<Intersection<T, O>>)
        requires
            ordered::<T>(),
        ensures
            r == match hit_index(self.data@, N as nat) {
                Some(i) => Some(self.data@[i]),
                None => None,
            },
            r.is_none() <==> forall|j: int|
                0 <= j < N ==> !in_front(#[trigger] self.data@[j].value),
    {
        let zero: T = constant(0);
        let mut closest_intersection: Option<Intersection<T, O>> = None;
        let mut k: usize = 0;
        while k < N
            invariant
                k <= N,
                ordered::<T>(),
                zero == lit::<T>(0),
                closest_intersection == match hit_index(self.data@, k as nat) {
                    Some(i) => Some(self.data@[i]),
                    None => None,
                },
            decreases N - k,
        {
            let inter = self.data[k];
            if inter.value > zero {
                match closest_intersection {
                    None => {
                        closest_intersection = Some(inter);
                    },
                    Some(closest) => {
                        if closest.value > inter.value {
                            closest_intersection = Some(inter);
                        }
                    },
                }
            }
            k += 1;
        }
        proof {
            lemma_hit_index_in_front(self.data@, N as nat);
        }
        closest_intersection
    }

    /// Puts `value` at `index`. Every other intersection stays.
    pub fn set(&mut self, index: usize, value: Intersection<T, O>)
        requires
            index < N,
        ensures
            final(self).data@ == old(self).data@.update(index as int, value),
    {
        self.data[index] = value;
    }
}

impl<T: Scalar, O: Copy, const N: usize> Index<usize> for Intersections<T, O, N> {
    type Output = Intersection<T, O>;

    /// The intersection at `index`.
    fn index(&self, index: usize) -> (r: &Intersection<T, O>)
        ensures
            *r == self.data@[index as int],
    {
        &self.data[index]
    }
}

impl<T: Scalar, O: Copy, const N: usize> vstd::std_specs::core::IndexSpecImpl<usize> for Intersections<T, O, N> {
    open spec fn index_req(&self, index: &usize) -> bool {
        *index < N
    }
}

} // verus!
