//! The failures that building a package can report.

use crate::text::{decimal, decimal_text};
use vstd::prelude::*;
use vstd::string::*;

verus! {

/// The decoder's own account of why image data could not be read.
#[verifier::external_type_specification]
#[verifier::external_body]
pub struct ExImageError(image::ImageError);

/// The serializer's own account of why a document could not be written.
#[verifier::external_type_specification]
#[verifier::external_body]
pub struct ExXmlError(xml::writer::Error);

/// A required descriptive field that is empty or holds only whitespace.
#[derive(Debug)]
pub struct MetadataValidationError {
    /// The name of the offending field.
    pub field: &'static str,
}

/// Everything that can go wrong while a package is assembled.
#[derive(Debug)]
pub enum EpubWriterError {
    /// The book's description failed validation.
    InvalidMetadataError(MetadataValidationError),
    /// A package needs at least one body page.
    NoPagesError,
    /// The package already has a cover.
    CoverAlreadySetError,
    /// A cover has to be a single page: it cannot be wider than tall.
    CoverSizeError,
    /// The image format is recognised but not one a package may hold.
    UnsupportedImageError,
    /// The image format is unknown or the image data cannot be decoded.
    InvalidImageError(image::ImageError),
    /// A spread cannot start at this page, counted from one.
    PageSortingError { page_number: u32 },
    /// A document of the package could not be serialized.
    XmlWritingError(xml::writer::Error),
    /// The package is closed and takes no more changes.
    FinalizedError,
}

/// What an error says of itself, but for the failure of the serializer,
/// which speaks for itself.
pub open spec fn error_text(error: EpubWriterError) -> Option<Seq<char>> {
    match error {
        EpubWriterError::InvalidMetadataError(_) => Some("Invalid metadata"@),
        EpubWriterError::NoPagesError => Some(
            "At least one page is required for a valid epub"@,
        ),
        EpubWriterError::CoverAlreadySetError => Some("Cover already set"@),
        EpubWriterError::CoverSizeError => Some("Cover cannot be wider than tall"@),
        EpubWriterError::UnsupportedImageError => Some("Unsupported image"@),
        EpubWriterError::InvalidImageError(_) => Some("Invalid image"@),
        EpubWriterError::PageSortingError { page_number } => Some(
            "Spread not allowed at page "@ + decimal(page_number as nat),
        ),
        EpubWriterError::XmlWritingError(_) => None,
        EpubWriterError::FinalizedError => Some("The package is closed"@),
    }
}

/// Calls `to_string` on the serializer's error, which writes it as its
/// `Display` does. Nothing is claimed of the text.
#[verifier::external_body]
fn serializer_message(error: &xml::writer::Error) -> (text: String) {
    error.to_string()
}

impl MetadataValidationError {
    /// Says which field is at fault.
    pub fn message(&self) -> (text: String)
        ensures
            text@ == self.field@ + " field cannot be empty or whitespace"@,
    {
        let mut text = String::from_str(self.field);
        text.append(" field cannot be empty or whitespace");
        text
    }
}

impl EpubWriterError {
    /// Says what went wrong.
    pub fn message(&self) -> (text: String)
        ensures
            error_text(*self) matches Some(expected) ==> text@ == expected,
    {
        match self {
            EpubWriterError::InvalidMetadataError(_) => String::from_str("Invalid metadata"),
            EpubWriterError::NoPagesError => String::from_str(
                "At least one page is required for a valid epub",
            ),
            EpubWriterError::CoverAlreadySetError => String::from_str("Cover already set"),
            EpubWriterError::CoverSizeError => String::from_str("Cover cannot be wider than tall"),
            EpubWriterError::UnsupportedImageError => String::from_str("Unsupported image"),
            EpubWriterError::InvalidImageError(_) => String::from_str("Invalid image"),
            EpubWriterError::PageSortingError { page_number } => {
                let mut text = String::from_str("Spread not allowed at page ");
                text.append(decimal_text(*page_number).as_str());
                text
            },
            EpubWriterError::XmlWritingError(source) => serializer_message(source),
            EpubWriterError::FinalizedError => String::from_str("The package is closed"),
        }
    }
}

} // verus!
