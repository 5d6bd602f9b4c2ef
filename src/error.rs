//! The ways in which producing a composited picture can fail.

use vstd::prelude::*;

verus! {

#[derive(Clone, Copy, Debug, PartialEq, Eq, Structural)]
pub enum StrangeError {
    /// A local input path does not exist or names no file.
    InputNotFound,
    /// A remote picture could not be fetched.
    FetchFailed,
    /// The input bytes are not a picture in a known format.
    DecodeFailed,
    /// The result could not be encoded.
    EncodeFailed,
    /// A request came without its query parameters.
    NoQueryParameters,
}

/// The diagnostic shown for each error.
pub open spec fn message_of(e: StrangeError) -> Seq<char> {
    match e {
        StrangeError::InputNotFound => "No such file or directory"@,
        StrangeError::FetchFailed => "Failed to fetch image"@,
        StrangeError::DecodeFailed => "Failed to decode image"@,
        StrangeError::EncodeFailed => "Failed to encode image"@,
        StrangeError::NoQueryParameters => "No query params"@,
    }
}

impl StrangeError {
    pub fn message(&self) -> (r: &'static str)
        ensures
            r@ == message_of(*self),
    {
        match self {
            StrangeError::InputNotFound => "No such file or directory",
            StrangeError::FetchFailed => "Failed to fetch image",
            StrangeError::DecodeFailed => "Failed to decode image",
            StrangeError::EncodeFailed => "Failed to encode image",
            StrangeError::NoQueryParameters => "No query params",
        }
    }
}

} // verus!
