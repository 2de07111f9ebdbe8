//! The codecs by the name of their format.
pub use super::jpeg;
pub use super::png;
