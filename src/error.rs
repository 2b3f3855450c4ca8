//! The closed set of failures that every fallible operation reports.
use vstd::prelude::*;

verus! {

/// A failure, with the field or value that caused it where there is one.
#[derive(Debug, Clone)]
pub enum AppError {
    InvalidImageFormat,
    FileTooLarge,
    UnsupportedImageFormat,
    MissingField(String),
    InvalidFieldValue(String),
    ImageProcessingError(String),
    IoError(String),
    NotImplemented,
}

/// The HTTP status under which each kind of failure is reported.
pub open spec fn status_of(e: AppError) -> u16 {
    match e {
        AppError::InvalidImageFormat | AppError::UnsupportedImageFormat => 415,
        AppError::FileTooLarge => 413,
        AppError::MissingField(_) | AppError::InvalidFieldValue(_) => 400,
        AppError::ImageProcessingError(_) | AppError::IoError(_) => 500,
        AppError::NotImplemented => 501,
    }
}

/// The user-facing message of each failure.
pub open spec fn message_of(e: AppError) -> Seq<char> {
    match e {
        AppError::InvalidImageFormat => "Invalid image format"@,
        AppError::FileTooLarge => "File too large (max 20MB)"@,
        AppError::UnsupportedImageFormat => "Unsupported image format"@,
        AppError::MissingField(f) => "Missing required field: "@ + f@,
        AppError::InvalidFieldValue(v) => "Invalid field value: "@ + v@,
        AppError::ImageProcessingError(m) => "Image processing error: "@ + m@,
        AppError::IoError(m) => "IO error: "@ + m@,
        AppError::NotImplemented => "Not implemented"@,
    }
}

impl AppError {
    /// The HTTP status code that reports this failure.
    pub fn status_code(&self) -> (r: u16)
        ensures
            r == status_of(*self),
    {
        match self {
            AppError::InvalidImageFormat | AppError::UnsupportedImageFormat => 415,
            AppError::FileTooLarge => 413,
            AppError::MissingField(_) | AppError::InvalidFieldValue(_) => 400,
            AppError::ImageProcessingError(_) | AppError::IoError(_) => 500,
            AppError::NotImplemented => 501,
        }
    }

    /// The message shown to the user for this failure.
    pub fn message(&self) -> (r: String)
        ensures
            r@ == message_of(*self),
    {
        match self {
            AppError::InvalidImageFormat => String::from_str("Invalid image format"),
            AppError::FileTooLarge => String::from_str("File too large (max 20MB)"),
            AppError::UnsupportedImageFormat => String::from_str("Unsupported image format"),
            AppError::MissingField(f) => String::from_str("Missing required field: ").concat(
                f.as_str(),
            ),
            AppError::InvalidFieldValue(v) => String::from_str("Invalid field value: ").concat(
                v.as_str(),
            ),
            AppError::ImageProcessingError(m) => String::from_str(
                "Image processing error: ",
            ).concat(m.as_str()),
            AppError::IoError(m) => String::from_str("IO error: ").concat(m.as_str()),
            AppError::NotImplemented => String::from_str("Not implemented"),
        }
    }
}

} // verus!
