//! The ways a conversion can fail.

use vstd::prelude::*;

verus! {

/// A failed conversion, with a cause written for people.
#[derive(Debug, PartialEq, Eq)]
pub enum AsciiError {
    /// The caller's arguments are unusable: no input bytes, or no columns.
    InvalidArgument(String),
    /// The bytes are not an image that can be read, or the image is empty.
    DecodeError(String),
    /// No 8-bit luminance raster of the requested size could be had from the
    /// decoded image.
    ResampleError(String),
}

impl AsciiError {
    /// The cause, whatever the kind of failure.
    pub open spec fn cause(self) -> Seq<char> {
        match self {
            AsciiError::InvalidArgument(m) => m@,
            AsciiError::DecodeError(m) => m@,
            AsciiError::ResampleError(m) => m@,
        }
    }

    /// The cause, whatever the kind of failure.
    pub fn message(&self) -> (m: &String)
        ensures
            m@ == self.cause(),
    {
        match self {
            AsciiError::InvalidArgument(m) => m,
            AsciiError::DecodeError(m) => m,
            AsciiError::ResampleError(m) => m,
        }
    }
}

} // verus!
