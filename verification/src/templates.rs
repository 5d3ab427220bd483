//! The fixed text of the documents that a package holds.

use vstd::prelude::*;

verus! {

/// The fixed container document, which points a reading system at the package document.
pub const CONTAINER_XML: &'static str = "<?xml version=\"1.0\" encoding=\"UTF-8\" ?>\n<container version=\"1.0\" xmlns=\"urn:oasis:names:tc:opendocument:xmlns:container\">\n  <rootfiles>\n    <rootfile full-path=\"OEBPS/content.opf\" media-type=\"application/oebps-package+xml\"/>\n  </rootfiles>\n</container>";

/// A page document from its start up to the viewport width.
pub const PAGE_HEAD: &'static str = "<?xml version=\"1.0\" encoding=\"utf-8\"?>\n<html lang=\"en-US\" xml:lang=\"en-US\" xmlns=\"http://www.w3.org/1999/xhtml\">\n  <head>\n    <meta charset=\"utf-8\" />\n    <meta name=\"viewport\" content=\"width=";

/// Between the viewport width and the viewport height.
pub const PAGE_VIEWPORT_HEIGHT: &'static str = ", height=";

/// From the end of the viewport up to the width of the drawing.
pub const PAGE_BODY: &'static str = "\" />\n    <title>PGTITLE</title>\n  </head>\n  <body>\n    <svg width=\"";

/// Between a width attribute and the height attribute that follows it.
pub const PAGE_HEIGHT: &'static str = "\" height=\"";

/// Between the height of the drawing and the width in its view box.
pub const PAGE_VIEW_BOX: &'static str = "\" viewBox=\"0 0 ";

/// Between the two sizes of the view box.
pub const PAGE_VIEW_BOX_SEPARATOR: &'static str = " ";

/// From the end of the view box up to the horizontal offset of the image.
pub const PAGE_IMAGE: &'static str = "\" version=\"1.1\" xmlns=\"http://www.w3.org/2000/svg\" xmlns:xlink=\"http://www.w3.org/1999/xlink\" xml:space=\"preserve\">\n        <image x=\"";

/// Between the horizontal offset of the image and its width.
pub const PAGE_IMAGE_WIDTH: &'static str = "\" y=\"0\" width=\"";

/// Between the height of the image and the name of its file.
pub const PAGE_IMAGE_HREF: &'static str = "\" xlink:href=\"";

/// A page document from the end of the file name on.
pub const PAGE_TAIL: &'static str = "\"/>\n    </svg>\n  </body>\n</html>";

} // verus!
