//! Resizing, which is declared but not available.
use super::Image;
use crate::error::Error;
use crate::geometry::Shape;
use crate::traits::resize::{BiCubicParams, BiLinearParams, NearestNeighborParams, Resizable};
use vstd::prelude::*;

verus! {

fn no_resize(method: &str) -> (e: Error)
    ensures
        e is NotImplemented,
{
    Error::NotImplemented(method.to_string())
}

impl Resizable<NearestNeighborParams> for Image {
    /// Resizing is not available: every request is refused and the image
    /// is kept.
    open spec fn resized(&self, before: &Self, shape: Shape, outcome: Result<(), Error>) -> bool {
        &&& outcome matches Err(e) && e is NotImplemented
        &&& self@ == before@
        &&& self.same_frame(before)
    }

    #[allow(unused_variables)]
    fn resize(&mut self, shape: Shape) -> (outcome: Result<(), Error>)
    {
        Err(no_resize("Nearest-neighbour resizing"))
    }
}

impl Resizable<BiCubicParams> for Image {
    /// Resizing is not available: every request is refused and the image
    /// is kept.
    open spec fn resized(&self, before: &Self, shape: Shape, outcome: Result<(), Error>) -> bool {
        &&& outcome matches Err(e) && e is NotImplemented
        &&& self@ == before@
        &&& self.same_frame(before)
    }

    #[allow(unused_variables)]
    fn resize(&mut self, shape: Shape) -> (outcome: Result<(), Error>)
    {
        Err(no_resize("Bicubic resizing"))
    }
}

impl Resizable<BiLinearParams> for Image {
    /// Resizing is not available: every request is refused and the image
    /// is kept.
    open spec fn resized(&self, before: &Self, shape: Shape, outcome: Result<(), Error>) -> bool {
        &&& outcome matches Err(e) && e is NotImplemented
        &&& self@ == before@
        &&& self.same_frame(before)
    }

    #[allow(unused_variables)]
    fn resize(&mut self, shape: Shape) -> (outcome: Result<(), Error>)
    {
        Err(no_resize("Bilinear resizing"))
    }
}

} // verus!
