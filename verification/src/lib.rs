//! Assembles raster page images into a fixed-layout e-book package.
//!
//! A [`writer::EpubWriter`] takes a cover and pages one at a time. It
//! classifies each image as a single page or a spread, numbers and names it,
//! keeps spreads where they may stand, and hands out the files of the package
//! as they become known: the images and their page documents at once, the
//! package document and the navigation document when the package is closed.
//! Writing the files to an archive is left to the caller.

pub mod batch;
pub mod classify;
pub mod container;
pub mod errors;
pub mod metadata;
pub mod nav;
pub mod opf;
pub mod pageimage;
pub mod sequence;
pub mod templates;
pub mod text;
pub mod writer;
pub mod xmldoc;

pub use container::ContainerEntry;
pub use errors::{EpubWriterError, MetadataValidationError};
pub use metadata::{Metadata, PublishedDate};
pub use pageimage::PageImage;
pub use writer::EpubWriter;
