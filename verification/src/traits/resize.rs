//! Resizing methods and the trait for resizing.
use crate::error::Error;
use crate::geometry::Shape;
use vstd::prelude::*;

verus! {

/// Resizing by taking the nearest pixel.
#[derive(Debug, Default)]
pub struct NearestNeighborParams;

/// Resizing by bicubic interpolation.
#[derive(Debug, Default)]
pub struct BiCubicParams;

/// Resizing by bilinear interpolation.
#[derive(Debug, Default)]
pub struct BiLinearParams;

/// Something that can be resized by the method `T`.
pub trait Resizable<T> {
    /// What resizing `before` to `shape` leaves behind, and what it reports.
    spec fn resized(&self, before: &Self, shape: Shape, outcome: Result<(), Error>) -> bool;

    /// Resizes the value to `shape`.
    fn resize(&mut self, shape: Shape) -> (outcome: Result<(), Error>)
        ensures
            final(self).resized(old(self), shape, outcome),
    ;
}

} // verus!
