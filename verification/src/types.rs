//! Index tuples.
use vstd::prelude::*;

verus! {

/// The indices of a value in four dimensions.
pub type Index4D = (usize, usize, usize, usize);

/// Column, row and channel of one byte of an image.
pub type Index3D = (usize, usize, usize);

/// Column and row of one pixel of an image.
pub type Index2D = (usize, usize);

} // verus!
