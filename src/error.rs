use vstd::prelude::*;

verus! {

/// Why rendering an image failed. Each kind stops the pipeline at the stage
/// that produced it.
#[derive(Debug, Clone, Copy, PartialEq, Eq, Structural)]
pub enum ProcessingError {
    InvalidFile,
    CannotConvertToGrayscale,
    UnsupportedImageFormat,
    CannotScale,
    CannotGetPixel,
}

/// The human-readable text of each error kind.
pub open spec fn error_message(e: ProcessingError) -> Seq<char> {
    match e {
        ProcessingError::InvalidFile => "File not found or file is not an image"@,
        ProcessingError::CannotConvertToGrayscale => "Could not convert file to grayscale"@,
        ProcessingError::UnsupportedImageFormat => "File is not supported"@,
        ProcessingError::CannotScale => "Could not scale the image"@,
        ProcessingError::CannotGetPixel => "Could not extract a pixel from the image"@,
    }
}

impl ProcessingError {
    /// The message shown to a user for this error.
    pub fn message(&self) -> (m: String)
        ensures
            m@ == error_message(*self),
    {
        match self {
            ProcessingError::InvalidFile => "File not found or file is not an image".to_owned(),
            ProcessingError::CannotConvertToGrayscale => "Could not convert file to grayscale".to_owned(),
            ProcessingError::UnsupportedImageFormat => "File is not supported".to_owned(),
            ProcessingError::CannotScale => "Could not scale the image".to_owned(),
            ProcessingError::CannotGetPixel => "Could not extract a pixel from the image".to_owned(),
        }
    }
}

} // verus!
