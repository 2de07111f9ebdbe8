//! JPEG, which is a format in name only so far: nothing reads or writes it.
use crate::error::Error;
use crate::image::Image;
use vstd::prelude::*;

verus! {

/// JPEG streams cannot be written: every image is refused.
#[allow(unused_variables)]
pub fn encode(image: &Image) -> (stream: Result<Vec<u8>, Error>)
    ensures
        stream matches Err(e) && e is NotImplemented,
{
    Err(Error::NotImplemented("Writing JPEG".to_string()))
}

/// JPEG streams cannot be read: every stream is refused.
#[allow(unused_variables)]
pub fn decode(stream: &[u8]) -> (image: Result<Image, Error>)
    ensures
        image matches Err(e) && e is NotImplemented,
{
    Err(Error::NotImplemented("Reading JPEG".to_string()))
}

} // verus!
