//! The caller-facing error taxonomy and its mapping to status and message.

use vstd::prelude::*;

verus! {

/// The three coarse kinds that every failure of a diff request is reduced to.
#[derive(Debug, Clone, Copy, PartialEq, Eq, Structural)]
pub enum AppError {
    /// One of the two inputs could not be retrieved.
    InputNotFound,
    /// A retrieved payload is not a usable raster image.
    UnsupportedBitmapFormat,
    /// Any other failure: the comparison, the encoding or the storage of the result.
    UnknownError,
}

/// The HTTP status that answers each kind.
pub open spec fn status_of(e: AppError) -> u16 {
    match e {
        AppError::InputNotFound => 404,
        AppError::UnsupportedBitmapFormat => 415,
        AppError::UnknownError => 500,
    }
}

/// The message that the caller sees for each kind.
pub open spec fn message_of(e: AppError) -> Seq<char> {
    match e {
        AppError::InputNotFound => "Input not found"@,
        AppError::UnsupportedBitmapFormat => "Only supports image/png"@,
        AppError::UnknownError => "Internal server error"@,
    }
}

impl AppError {
    /// The HTTP status code of the response for this error.
    pub fn status_code(&self) -> (r: u16)
        ensures
            r == status_of(*self),
    {
        match self {
            AppError::InputNotFound => 404,
            AppError::UnsupportedBitmapFormat => 415,
            AppError::UnknownError => 500,
        }
    }

    /// The message carried in the response body for this error.
    pub fn message(&self) -> (r: &'static str)
        ensures
            r@ == message_of(*self),
    {
        match self {
            AppError::InputNotFound => "Input not found",
            AppError::UnsupportedBitmapFormat => "Only supports image/png",
            AppError::UnknownError => "Internal server error",
        }
    }
}

} // verus!

use image::ImageError;

verus! {

impl From<ImageError> for AppError {
    /// A payload the codec cannot decode is an unsupported format.
    fn from(inner: ImageError) -> (r: AppError)
        ensures
            r == AppError::UnsupportedBitmapFormat,
    {
        AppError::UnsupportedBitmapFormat
    }
}

impl vstd::std_specs::convert::FromSpecImpl<ImageError> for AppError {
    open spec fn obeys_from_spec() -> bool {
        true
    }

    open spec fn from_spec(inner: ImageError) -> AppError {
        AppError::UnsupportedBitmapFormat
    }
}

} // verus!
