//! One page of a package: an image, what is known of it, and the documents
//! that display it.

use crate::classify::{
    classification, decode_size, guess_format, guessed_format, Classification, ImageKind,
};
use crate::errors::EpubWriterError;
use crate::templates::{
    PAGE_BODY, PAGE_HEAD, PAGE_HEIGHT, PAGE_IMAGE, PAGE_IMAGE_HREF, PAGE_IMAGE_WIDTH, PAGE_TAIL,
    PAGE_VIEWPORT_HEIGHT, PAGE_VIEW_BOX, PAGE_VIEW_BOX_SEPARATOR,
};
use crate::text::{decimal, decimal_text};
use vstd::prelude::*;
use vstd::string::*;

verus! {

/// A page image as the package sees it.
#[derive(Debug, PartialEq, Eq)]
pub struct PageImage {
    /// The stem of every file name that belongs to the page.
    pub base_name: String,
    /// The title of the navigation entry that starts at this page, if one does.
    pub nav_label: Option<String>,
    /// The extension of the image file, with its dot.
    pub extension: &'static str,
    /// The media type of the image file.
    pub mime_type: &'static str,
    /// Width and height in pixels.
    pub size: (u32, u32),
    /// Whether the image covers two facing pages.
    pub spread: bool,
}

/// What a `PageImage` holds, as plain values.
pub struct PageView {
    pub base_name: Seq<char>,
    pub nav_label: Option<Seq<char>>,
    pub extension: Seq<char>,
    pub mime_type: Seq<char>,
    pub size: (u32, u32),
    pub spread: bool,
}

impl View for PageImage {
    type V = PageView;

    open spec fn view(&self) -> PageView {
        PageView {
            base_name: self.base_name@,
            nav_label: match self.nav_label {
                Some(label) => Some(label@),
                None => None,
            },
            extension: self.extension@,
            mime_type: self.mime_type@,
            size: self.size,
            spread: self.spread,
        }
    }
}

impl DeepView for PageImage {
    type V = PageView;

    open spec fn deep_view(&self) -> PageView {
        self@
    }
}

/// Which face of a page image a page document shows.
#[derive(Clone, Copy, Debug, PartialEq, Eq, Structural)]
pub enum PageFace {
    /// The whole image.
    Whole,
    /// The left half of a spread.
    Left,
    /// The right half of a spread.
    Right,
}

/// File extension and media type of a supported format.
pub open spec fn type_info(kind: ImageKind) -> Option<(Seq<char>, Seq<char>)> {
    match kind {
        ImageKind::Gif => Some((".gif"@, "image/gif"@)),
        ImageKind::Jpeg => Some((".jpg"@, "image/jpeg"@)),
        ImageKind::Png => Some((".png"@, "image/png"@)),
        ImageKind::Other => None,
    }
}

/// The page of an image of the given type and size. It has no base name
/// yet, and it is a spread exactly when it is wider than tall.
pub open spec fn sized_page(
    extension: Seq<char>,
    mime_type: Seq<char>,
    size: (u32, u32),
    nav_label: Option<Seq<char>>,
) -> PageView {
    PageView {
        base_name: Seq::empty(),
        nav_label,
        extension,
        mime_type,
        size,
        spread: size.0 > size.1,
    }
}

/// The page that an image of the given format and size becomes.
pub open spec fn classified_page(
    kind: ImageKind,
    size: (u32, u32),
    nav_label: Option<Seq<char>>,
) -> PageView
    recommends
        type_info(kind) is Some,
{
    sized_page(type_info(kind)->Some_0.0, type_info(kind)->Some_0.1, size, nav_label)
}

/// The name of the image file of `page`.
pub open spec fn image_file_name(page: PageView) -> Seq<char> {
    page.base_name + page.extension
}

/// The name of the page document that shows `face` of `page`.
pub open spec fn page_file_name(page: PageView, face: PageFace) -> Seq<char> {
    match face {
        PageFace::Whole => page.base_name + ".xhtml"@,
        PageFace::Left => page.base_name + "_L.xhtml"@,
        PageFace::Right => page.base_name + "_R.xhtml"@,
    }
}

/// The faces of `page` in reading order: one for a single page, two for a
/// spread, the right half first when reading runs right to left.
pub open spec fn page_faces(spread: bool, reading_rtl: bool) -> Seq<PageFace> {
    if !spread {
        seq![PageFace::Whole]
    } else if reading_rtl {
        seq![PageFace::Right, PageFace::Left]
    } else {
        seq![PageFace::Left, PageFace::Right]
    }
}

/// The names of the page documents of `page`, in reading order.
pub open spec fn page_file_names(page: PageView, reading_rtl: bool) -> Seq<Seq<char>> {
    page_faces(page.spread, reading_rtl).map_values(|face: PageFace| page_file_name(page, face))
}

/// The width of the viewport of a page document: the whole image for a single
/// page, half of it, rounded down, for one half of a spread.
pub open spec fn viewport_width(page: PageView, face: PageFace) -> nat {
    match face {
        PageFace::Whole => page.size.0 as nat,
        _ => (page.size.0 / 2) as nat,
    }
}

/// Where the image is placed horizontally: at the origin, or shifted left by
/// half its width so that the right half shows.
pub open spec fn image_offset(page: PageView, face: PageFace) -> Seq<char> {
    match face {
        PageFace::Right => "-"@ + decimal((page.size.0 / 2) as nat),
        _ => "0"@,
    }
}

/// The page document that shows `face` of `page`: a viewport of the face's
/// size that holds the image at the face's offset.
pub open spec fn page_markup(page: PageView, face: PageFace) -> Seq<char> {
    let width = decimal(page.size.0 as nat);
    let height = decimal(page.size.1 as nat);
    let view_width = decimal(viewport_width(page, face));
    PAGE_HEAD@ + view_width + PAGE_VIEWPORT_HEIGHT@ + height + PAGE_BODY@ + view_width
        + PAGE_HEIGHT@ + height + PAGE_VIEW_BOX@ + view_width + PAGE_VIEW_BOX_SEPARATOR@ + height
        + PAGE_IMAGE@ + image_offset(page, face) + PAGE_IMAGE_WIDTH@ + width + PAGE_HEIGHT@
        + height + PAGE_IMAGE_HREF@ + image_file_name(page) + PAGE_TAIL@
}

/// The page documents of `page` in reading order, each with its file name.
pub open spec fn pages_xml(page: PageView, reading_rtl: bool) -> Seq<(Seq<char>, Seq<char>)> {
    page_faces(page.spread, reading_rtl).map_values(
        |face: PageFace| (page_file_name(page, face), page_markup(page, face)),
    )
}

/// File extension and media type of a format, or the refusal of a format
/// that packages do not hold.
pub fn image_type_info(kind: ImageKind) -> (r: Result<
    (&'static str, &'static str),
    EpubWriterError,
>)
    ensures
        match r {
            Ok(info) => type_info(kind) == Some((info.0@, info.1@)),
            Err(e) => type_info(kind) is None && e is UnsupportedImageError,
        },
{
    match kind {
        ImageKind::Gif => Ok((".gif", "image/gif")),
        ImageKind::Jpeg => Ok((".jpg", "image/jpeg")),
        ImageKind::Png => Ok((".png", "image/png")),
        ImageKind::Other => Err(EpubWriterError::UnsupportedImageError),
    }
}

/// The text of an optional label.
pub open spec fn label_view(label: Option<String>) -> Option<Seq<char>> {
    match label {
        Some(text) => Some(text@),
        None => None,
    }
}

/// What classifying image data gives: the page of a supported image that
/// decodes, and a refusal of everything else. The format is settled before
/// the data is decoded.
pub open spec fn classify_outcome(
    image: Seq<u8>,
    nav_label: Option<Seq<char>>,
    result: Result<PageImage, EpubWriterError>,
) -> bool {
    match classification(image) {
        Classification::Image { kind, size } => result matches Ok(page) && page@
            == classified_page(kind, size, nav_label),
        Classification::Unsupported => result matches Err(EpubWriterError::UnsupportedImageError),
        Classification::Invalid => result matches Err(EpubWriterError::InvalidImageError(_)),
    }
}

/// Classification depends on the image data alone: two classifications of
/// the same data, under whatever labels, succeed or fail together, fail for
/// the same reason, and give pages of the same type, size and spread flag.
/// And data of an unsupported format is refused as such whether or not it
/// would decode.
pub proof fn lemma_classification_is_deterministic(
    image: Seq<u8>,
    label_a: Option<Seq<char>>,
    label_b: Option<Seq<char>>,
    a: Result<PageImage, EpubWriterError>,
    b: Result<PageImage, EpubWriterError>,
)
    requires
        classify_outcome(image, label_a, a),
        classify_outcome(image, label_b, b),
    ensures
        a is Ok <==> b is Ok,
        (a matches Err(EpubWriterError::UnsupportedImageError)) <==> (b matches Err(
            EpubWriterError::UnsupportedImageError,
        )),
        (a matches Err(EpubWriterError::InvalidImageError(_))) <==> (b matches Err(
            EpubWriterError::InvalidImageError(_),
        )),
        a is Ok ==> {
            &&& a->Ok_0@.spread == b->Ok_0@.spread
            &&& a->Ok_0@.mime_type == b->Ok_0@.mime_type
            &&& a->Ok_0@.extension == b->Ok_0@.extension
            &&& a->Ok_0@.size == b->Ok_0@.size
        },
        guessed_format(image) == Some(ImageKind::Other) ==> (a matches Err(
            EpubWriterError::UnsupportedImageError,
        )),
{
}

/// The direction of reading decides the order of the two halves of a spread
/// and nothing else: read from right to left, the page documents of a spread
/// and their names come in the opposite order, and those of a single page
/// are what they are read from left to right.
pub proof fn lemma_reading_direction_swaps_spread_halves(page: PageView)
    ensures
        page.spread ==> pages_xml(page, true) == pages_xml(page, false).reverse(),
        page.spread ==> page_file_names(page, true) == page_file_names(page, false).reverse(),
        !page.spread ==> pages_xml(page, true) == pages_xml(page, false),
        !page.spread ==> page_file_names(page, true) == page_file_names(page, false),
{
    if page.spread {
        assert(pages_xml(page, true) =~= pages_xml(page, false).reverse());
        assert(page_file_names(page, true) =~= page_file_names(page, false).reverse());
    }
}

impl PageImage {
    /// Classifies image data: finds its format, refuses the formats that
    /// packages do not hold, then decodes it for its size. The page has no
    /// base name yet.
    pub fn new(image_data: &[u8], nav_label: Option<String>) -> (r: Result<
        PageImage,
        EpubWriterError,
    >)
        ensures
            classify_outcome(image_data@, label_view(nav_label), r),
    {
        let kind = match guess_format(image_data) {
            Ok(kind) => kind,
            Err(source) => {
                return Err(EpubWriterError::InvalidImageError(source));
            },
        };
        let info = match image_type_info(kind) {
            Ok(info) => info,
            Err(e) => {
                return Err(e);
            },
        };
        let size = match decode_size(image_data) {
            Ok(size) => size,
            Err(source) => {
                return Err(EpubWriterError::InvalidImageError(source));
            },
        };
        Ok(PageImage::with_size(info, size, nav_label))
    }

    /// The page for an image whose type and size are known: `info` holds the
    /// extension of its file and its media type. It is a spread exactly when
    /// it is wider than tall.
    pub fn with_size(
        info: (&'static str, &'static str),
        size: (u32, u32),
        nav_label: Option<String>,
    ) -> (page: PageImage)
        ensures
            page@ == sized_page(info.0@, info.1@, size, label_view(nav_label)),
    {
        PageImage {
            base_name: String::new(),
            nav_label,
            extension: info.0,
            mime_type: info.1,
            size,
            spread: size.0 > size.1,
        }
    }

    /// The name of the image file.
    pub fn image_file_name(&self) -> (name: String)
        ensures
            name@ == image_file_name(self@),
    {
        let mut name = self.base_name.clone();
        name.append(self.extension);
        name
    }

    /// The name of the page document for one face of the page.
    pub fn page_face_file_name(&self, face: PageFace) -> (name: String)
        ensures
            name@ == page_file_name(self@, face),
    {
        let mut name = self.base_name.clone();
        match face {
            PageFace::Whole => name.append(".xhtml"),
            PageFace::Left => name.append("_L.xhtml"),
            PageFace::Right => name.append("_R.xhtml"),
        }
        name
    }

    /// The name of the page document of a single page.
    pub fn page_regular_file_name(&self) -> (name: String)
        ensures
            name@ == page_file_name(self@, PageFace::Whole),
    {
        self.page_face_file_name(PageFace::Whole)
    }

    /// The name of the page document of the left half of a spread.
    pub fn page_spread_left_file_name(&self) -> (name: String)
        ensures
            name@ == page_file_name(self@, PageFace::Left),
    {
        self.page_face_file_name(PageFace::Left)
    }

    /// The name of the page document of the right half of a spread.
    pub fn page_spread_right_file_name(&self) -> (name: String)
        ensures
            name@ == page_file_name(self@, PageFace::Right),
    {
        self.page_face_file_name(PageFace::Right)
    }

    /// The faces of the page in reading order.
    pub fn faces(&self, reading_rtl: bool) -> (faces: Vec<PageFace>)
        ensures
            faces@ == page_faces(self.spread, reading_rtl),
    {
        let mut faces: Vec<PageFace> = Vec::new();
        if !self.spread {
            faces.push(PageFace::Whole);
        } else if reading_rtl {
            faces.push(PageFace::Right);
            faces.push(PageFace::Left);
        } else {
            faces.push(PageFace::Left);
            faces.push(PageFace::Right);
        }
        assert(faces@ =~= page_faces(self.spread, reading_rtl));
        faces
    }

    /// The names of the page documents, in reading order.
    pub fn page_file_names(&self, reading_rtl: bool) -> (names: Vec<String>)
        ensures
            names.deep_view() == page_file_names(self@, reading_rtl),
    {
        let faces = self.faces(reading_rtl);
        let mut names: Vec<String> = Vec::new();
        let mut i: usize = 0;
        while i < faces.len()
            invariant
                i <= faces.len(),
                faces@ == page_faces(self.spread, reading_rtl),
                names.deep_view() == page_file_names(self@, reading_rtl).take(i as int),
            decreases faces.len() - i,
        {
            let name = self.page_face_file_name(faces[i]);
            let ghost before = names.deep_view();
            names.push(name);
            assert(names.deep_view() =~= before.push(name@));
            assert(page_file_names(self@, reading_rtl).take(i + 1) =~= page_file_names(
                self@,
                reading_rtl,
            ).take(i as int).push(page_file_name(self@, faces@[i as int])));
            i = i + 1;
        }
        assert(page_file_names(self@, reading_rtl).take(i as int) =~= page_file_names(
            self@,
            reading_rtl,
        ));
        names
    }

    /// The page document for one face of the page.
    pub fn generate_page_xml(&self, face: PageFace) -> (markup: String)
        ensures
            markup@ == page_markup(self@, face),
    {
        let width = decimal_text(self.size.0);
        let height = decimal_text(self.size.1);
        let half_width = decimal_text(self.size.0 / 2);
        let view_width = match face {
            PageFace::Whole => width.as_str(),
            _ => half_width.as_str(),
        };
        let mut markup = String::from_str(PAGE_HEAD);
        markup.append(view_width);
        markup.append(PAGE_VIEWPORT_HEIGHT);
        markup.append(height.as_str());
        markup.append(PAGE_BODY);
        markup.append(view_width);
        markup.append(PAGE_HEIGHT);
        markup.append(height.as_str());
        markup.append(PAGE_VIEW_BOX);
        markup.append(view_width);
        markup.append(PAGE_VIEW_BOX_SEPARATOR);
        markup.append(height.as_str());
        markup.append(PAGE_IMAGE);
        let ghost head = markup@;
        match face {
            PageFace::Right => {
                markup.append("-");
                markup.append(half_width.as_str());
                assert(markup@ =~= head + image_offset(self@, face));
            },
            _ => {
                markup.append("0");
            },
        }
        markup.append(PAGE_IMAGE_WIDTH);
        markup.append(width.as_str());
        markup.append(PAGE_HEIGHT);
        markup.append(height.as_str());
        markup.append(PAGE_IMAGE_HREF);
        markup.append(self.image_file_name().as_str());
        markup.append(PAGE_TAIL);
        markup
    }

    /// The page documents in reading order, each with its file name.
    pub fn generate_pages_xml(&self, reading_rtl: bool) -> (pages: Vec<(String, String)>)
        ensures
            pages.deep_view() == pages_xml(self@, reading_rtl),
    {
        let faces = self.faces(reading_rtl);
        let mut pages: Vec<(String, String)> = Vec::new();
        let mut i: usize = 0;
        while i < faces.len()
            invariant
                i <= faces.len(),
                faces@ == page_faces(self.spread, reading_rtl),
                pages.deep_view() == pages_xml(self@, reading_rtl).take(i as int),
            decreases faces.len() - i,
        {
            let name = self.page_face_file_name(faces[i]);
            let markup = self.generate_page_xml(faces[i]);
            let ghost before = pages.deep_view();
            pages.push((name, markup));
            assert(pages.deep_view() =~= before.push((name@, markup@)));
            assert(pages_xml(self@, reading_rtl).take(i + 1) =~= pages_xml(
                self@,
                reading_rtl,
            ).take(i as int).push(
                (page_file_name(self@, faces@[i as int]), page_markup(self@, faces@[i as int])),
            ));
            i = i + 1;
        }
        assert(pages_xml(self@, reading_rtl).take(i as int) =~= pages_xml(self@, reading_rtl));
        pages
    }
}

} // verus!
