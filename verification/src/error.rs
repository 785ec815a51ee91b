//! The error type shared by every operation of the library.

use vstd::prelude::*;
use vstd::string::StringExecFns;

verus! {

/// The image codec's error, carried through unread.
#[verifier::external_type_specification]
#[verifier::external_body]
pub struct ExImageError(image::error::ImageError);

/// The operating system's I/O error, carried through unread.
#[verifier::external_type_specification]
#[verifier::external_body]
pub struct ExIoError(std::io::Error);

/// What can go wrong when capturing, restoring or encoding a snapshot.
#[derive(Debug)]
pub enum FbInkError {
    /// The driver reported a generic failure during the named operation.
    ExitFailure(String),
    /// The requested capability is absent on this build or device.
    NotSupported(String),
    /// Geometry or data supplied by the caller is invalid.
    InvalidArgument(String),
    /// A rotation or result value lies outside its valid domain.
    OutOfRange(String),
    /// A driver status code that the library does not recognise, verbatim.
    Other(i32),
    /// An error of the filesystem boundary.
    IoError(std::io::Error),
    /// An error of the image codec.
    ImageError(image::error::ImageError),
    /// A string handed to the driver held a NUL byte at this position.
    NulStringError(usize),
    /// The indirect capture's trigger did not report success.
    SunxiDumpError,
}

/// The mathematical content of an [`FbInkError`]: the variant, with each
/// message as a sequence of characters.
pub enum ErrorView {
    ExitFailure(Seq<char>),
    NotSupported(Seq<char>),
    InvalidArgument(Seq<char>),
    OutOfRange(Seq<char>),
    Other(i32),
    IoError(std::io::Error),
    ImageError(image::error::ImageError),
    NulStringError(usize),
    SunxiDumpError,
}

impl View for FbInkError {
    type V = ErrorView;

    open spec fn view(&self) -> ErrorView {
        match self {
            FbInkError::ExitFailure(operation) => ErrorView::ExitFailure(operation@),
            FbInkError::NotSupported(detail) => ErrorView::NotSupported(detail@),
            FbInkError::InvalidArgument(detail) => ErrorView::InvalidArgument(detail@),
            FbInkError::OutOfRange(detail) => ErrorView::OutOfRange(detail@),
            FbInkError::Other(code) => ErrorView::Other(*code),
            FbInkError::IoError(e) => ErrorView::IoError(*e),
            FbInkError::ImageError(e) => ErrorView::ImageError(*e),
            FbInkError::NulStringError(position) => ErrorView::NulStringError(*position),
            FbInkError::SunxiDumpError => ErrorView::SunxiDumpError,
        }
    }
}

/// A result with its error read as mathematical content.
pub open spec fn outcome<T>(r: Result<T, FbInkError>) -> Result<T, ErrorView> {
    match r {
        Ok(value) => Ok(value),
        Err(e) => Err(e@),
    }
}

/// `ToString::to_string` on the operating system's error: its own text.
#[verifier::external_body]
fn io_error_text(e: &std::io::Error) -> String {
    e.to_string()
}

/// `ToString::to_string` on the codec's error: its own text.
#[verifier::external_body]
fn image_error_text(e: &image::error::ImageError) -> String {
    e.to_string()
}

impl FbInkError {
    /// The message of the error, as a reader sees it. An error of the
    /// filesystem or of the codec speaks for itself: the library does not
    /// know its text.
    pub open spec fn spec_message(self) -> Option<Seq<char>> {
        match self {
            FbInkError::ExitFailure(operation) => Some(
                "FBInk returned EXIT_FAILURE during "@ + operation@,
            ),
            FbInkError::NotSupported(detail) => Some(detail@),
            FbInkError::InvalidArgument(detail) => Some(
                "Invalid argument provided ("@ + detail@ + ")"@,
            ),
            FbInkError::OutOfRange(detail) => Some(detail@),
            FbInkError::Other(code) => Some(
                "FBInk failed with error code "@ + crate::text::signed_decimal(code as int),
            ),
            FbInkError::IoError(_) => None,
            FbInkError::ImageError(_) => None,
            FbInkError::NulStringError(position) => Some(
                "nul byte found in provided data at position: "@ + crate::text::decimal(
                    position as nat,
                ),
            ),
            FbInkError::SunxiDumpError => Some("Failed to dump the working buffer"@),
        }
    }

    /// The message of the error.
    pub fn message(&self) -> (r: String)
        ensures
            self.spec_message() matches Some(text) ==> r@ == text,
    {
        match self {
            FbInkError::ExitFailure(operation) => {
                let mut text = "FBInk returned EXIT_FAILURE during ".to_owned();
                text.append(operation.as_str());
                text
            },
            FbInkError::NotSupported(detail) => detail.clone(),
            FbInkError::InvalidArgument(detail) => {
                let mut text = "Invalid argument provided (".to_owned();
                text.append(detail.as_str());
                text.append(")");
                text
            },
            FbInkError::OutOfRange(detail) => detail.clone(),
            FbInkError::Other(code) => {
                let mut text = "FBInk failed with error code ".to_owned();
                let number = crate::text::signed_decimal_text(*code);
                text.append(number.as_str());
                text
            },
            FbInkError::IoError(e) => io_error_text(e),
            FbInkError::ImageError(e) => image_error_text(e),
            FbInkError::NulStringError(position) => {
                let mut text = "nul byte found in provided data at position: ".to_owned();
                let number = crate::text::decimal_text_wide(*position as u64);
                text.append(number.as_str());
                text
            },
            FbInkError::SunxiDumpError => "Failed to dump the working buffer".to_owned(),
        }
    }
}

} // verus!
