//! The errors of this crate.
use vstd::prelude::*;
use vstd::string::StringExecFns;

verus! {

/// What an operation of this crate reports when it cannot do its work.
///
/// Each variant carries a human-readable detail. Contracts speak of the
/// variant only; the detail is for people.
#[derive(Debug)]
#[allow(clippy::enum_variant_names)]
pub enum Error {
    /// A file could not be opened, read or written.
    IOError(String),
    /// A byte stream is not a PNG this crate can read.
    ImageDecodeError(String),
    /// An image cannot be written as PNG.
    ImageEncodeError(String),
    /// A pixel or byte address lies outside the buffer.
    IndexOutOfBounds(String),
    /// A channel ordinal is not one of a colour's channels.
    InvalidChannel(String),
    /// Two buffers, or a buffer and a shape, do not have matching sizes.
    ShapeMismatch(String),
    /// The operation exists in the interface but has no implementation.
    NotImplemented(String),
    /// The operation is not meaningful for the values given.
    UnsupportedOperation(String),
}

impl Clone for Error {
    fn clone(&self) -> (copy: Error)
        ensures
            copy == *self,
    {
        match self {
            Error::IOError(d) => Error::IOError(d.clone()),
            Error::ImageDecodeError(d) => Error::ImageDecodeError(d.clone()),
            Error::ImageEncodeError(d) => Error::ImageEncodeError(d.clone()),
            Error::IndexOutOfBounds(d) => Error::IndexOutOfBounds(d.clone()),
            Error::InvalidChannel(d) => Error::InvalidChannel(d.clone()),
            Error::ShapeMismatch(d) => Error::ShapeMismatch(d.clone()),
            Error::NotImplemented(d) => Error::NotImplemented(d.clone()),
            Error::UnsupportedOperation(d) => Error::UnsupportedOperation(d.clone()),
        }
    }
}

impl Error {
    /// The text that introduces the detail of each variant.
    pub fn label(&self) -> (s: &'static str)
        ensures
            s@ == Self::spec_label(*self),
    {
        match self {
            Error::IOError(_) => "I/O error: ",
            Error::ImageDecodeError(_) => "Image decode error: ",
            Error::ImageEncodeError(_) => "Image encode error: ",
            Error::IndexOutOfBounds(_) => "Index out of bounds: ",
            Error::InvalidChannel(_) => "Invalid channel: ",
            Error::ShapeMismatch(_) => "Shape mismatch: ",
            Error::NotImplemented(_) => "Not implemented: ",
            Error::UnsupportedOperation(_) => "Color space error: ",
        }
    }

    pub open spec fn spec_label(e: Error) -> Seq<char> {
        match e {
            Error::IOError(_) => "I/O error: "@,
            Error::ImageDecodeError(_) => "Image decode error: "@,
            Error::ImageEncodeError(_) => "Image encode error: "@,
            Error::IndexOutOfBounds(_) => "Index out of bounds: "@,
            Error::InvalidChannel(_) => "Invalid channel: "@,
            Error::ShapeMismatch(_) => "Shape mismatch: "@,
            Error::NotImplemented(_) => "Not implemented: "@,
            Error::UnsupportedOperation(_) => "Color space error: "@,
        }
    }

    /// The detail carried by the error, whatever its variant.
    pub open spec fn spec_details(e: Error) -> Seq<char> {
        match e {
            Error::IOError(d) => d@,
            Error::ImageDecodeError(d) => d@,
            Error::ImageEncodeError(d) => d@,
            Error::IndexOutOfBounds(d) => d@,
            Error::InvalidChannel(d) => d@,
            Error::ShapeMismatch(d) => d@,
            Error::NotImplemented(d) => d@,
            Error::UnsupportedOperation(d) => d@,
        }
    }

    /// The detail carried by the error, whatever its variant.
    pub fn details(&self) -> (s: &str)
        ensures
            s@ == Self::spec_details(*self),
    {
        match self {
            Error::IOError(d) => d.as_str(),
            Error::ImageDecodeError(d) => d.as_str(),
            Error::ImageEncodeError(d) => d.as_str(),
            Error::IndexOutOfBounds(d) => d.as_str(),
            Error::InvalidChannel(d) => d.as_str(),
            Error::ShapeMismatch(d) => d.as_str(),
            Error::NotImplemented(d) => d.as_str(),
            Error::UnsupportedOperation(d) => d.as_str(),
        }
    }

    /// The full message: the variant's label followed by the detail.
    pub fn message(&self) -> (s: String)
        ensures
            s@ == Self::spec_label(*self) + Self::spec_details(*self),
    {
        let head = String::from_str(self.label());
        head.concat(self.details())
    }
}

} // verus!
