//! A small kernel for tracing rays: points and vectors in homogeneous
//! coordinates, square matrices with the affine transforms and the inverse
//! by cofactors, rays, the unit sphere under a transform, the choice of the
//! intersection that is seen, and a canvas with its plain-text image.
//!
//! The kernel is generic in its scalar and keeps no state: every operation
//! takes values and gives a value back.

pub mod canvas;
pub mod color;
pub mod float_service;
pub mod intersection;
pub mod matrix;
pub mod projectile;
pub mod ray;
pub mod sphere;
pub mod tuple;
