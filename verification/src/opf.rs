//! The package document: what the book is, which files it holds, and the
//! order in which they are read.

use crate::metadata::{date_text, Metadata, MetadataView};
use crate::pageimage::{
    image_file_name, page_faces, page_file_name, PageFace, PageImage, PageView,
};
use crate::xmldoc::{
    element, no_pairs, no_pairs_list, one_pair, push_all, push_element, push_end, push_pair,
    push_start, XmlToken, XmlTokenView,
};
use vstd::prelude::*;
use vstd::string::*;

verus! {

/// An element that is there only if its text is.
pub open spec fn optional_element(name: Seq<char>, content: Option<Seq<char>>) -> Seq<
    XmlTokenView,
> {
    match content {
        Some(text) => element(name, Some(text), no_pairs()),
        None => Seq::empty(),
    }
}

/// One subject element for each tag, in the order of the tags.
pub open spec fn subject_tokens(tags: Seq<Seq<char>>) -> Seq<XmlTokenView>
    decreases tags.len(),
{
    if tags.len() == 0 {
        Seq::empty()
    } else {
        subject_tokens(tags.drop_last()) + element("dc:subject"@, Some(tags.last()), no_pairs())
    }
}

/// One subject element for each custom property, in their order: the value as
/// its text, the key as its property.
pub open spec fn custom_tokens(custom: Seq<(Seq<char>, Seq<char>)>) -> Seq<XmlTokenView>
    decreases custom.len(),
{
    if custom.len() == 0 {
        Seq::empty()
    } else {
        custom_tokens(custom.drop_last()) + element(
            "dc:subject"@,
            Some(custom.last().1),
            seq![("property"@, "cpublib:"@ + custom.last().0)],
        )
    }
}

/// The metadata element: the book's identifier, the time of the last change,
/// the fixed-layout hint, and the descriptive fields.
pub open spec fn metadata_tokens(metadata: MetadataView, modified: Seq<char>) -> Seq<
    XmlTokenView,
> {
    seq![
        XmlTokenView::Start {
            name: "metadata"@,
            namespaces: seq![("dc"@, "http://purl.org/dc/elements/1.1/"@)],
            attributes: no_pairs(),
        },
    ] + element("dc:type"@, Some("text"@), no_pairs()) + element(
        "dc:identifier"@,
        Some(metadata.id),
        seq![("id"@, "bookid"@)],
    ) + element("meta"@, Some(modified), seq![("property"@, "dcterms:modified"@)]) + element(
        "meta"@,
        Some("pre-paginated"@),
        seq![("property"@, "rendition:layout"@)],
    ) + element("dc:title"@, Some(metadata.title), no_pairs()) + element(
        "dc:creator"@,
        Some(metadata.author),
        no_pairs(),
    ) + element("dc:publisher"@, Some(metadata.publisher), no_pairs()) + element(
        "dc:date"@,
        Some(date_text(metadata.published_date)),
        no_pairs(),
    ) + element("dc:language"@, Some(metadata.language), no_pairs()) + optional_element(
        "dc:description"@,
        metadata.description,
    ) + subject_tokens(metadata.tags) + custom_tokens(metadata.custom) + optional_element(
        "dc:source"@,
        metadata.source,
    ) + optional_element("dc:relation"@, metadata.relation) + optional_element(
        "dc:rights"@,
        metadata.copyright,
    ) + seq![XmlTokenView::End]
}

fn push_optional_element(tokens: &mut Vec<XmlToken>, name: &str, content: &Option<String>)
    ensures
        final(tokens).deep_view() == old(tokens).deep_view() + optional_element(
            name@,
            content.deep_view(),
        ),
{
    let ghost before = tokens.deep_view();
    match content {
        Some(text) => {
            push_element(tokens, name, Some(text.as_str()), no_pairs_list());
        },
        None => {
            assert(tokens.deep_view() =~= before + Seq::<XmlTokenView>::empty());
        },
    }
}

fn push_plain_element(tokens: &mut Vec<XmlToken>, name: &str, content: &str)
    ensures
        final(tokens).deep_view() == old(tokens).deep_view() + element(
            name@,
            Some(content@),
            no_pairs(),
        ),
{
    push_element(tokens, name, Some(content), no_pairs_list());
}


fn push_subjects(tokens: &mut Vec<XmlToken>, tags: &Vec<String>)
    ensures
        final(tokens).deep_view() == old(tokens).deep_view() + subject_tokens(tags.deep_view()),
{
    let ghost before = tokens.deep_view();
    let ghost all = tags.deep_view();
    let mut i: usize = 0;
    assert(tokens.deep_view() =~= before + subject_tokens(all.take(0)));
    while i < tags.len()
        invariant
            i <= tags.len(),
            all == tags.deep_view(),
            tokens.deep_view() == before + subject_tokens(all.take(i as int)),
        decreases tags.len() - i,
    {
        proof {
            assert(all.take(i + 1).drop_last() =~= all.take(i as int));
            assert(all.take(i + 1).last() == tags[i as int]@);
        }
        push_plain_element(tokens, "dc:subject", tags[i].as_str());
        assert(tokens.deep_view() =~= before + subject_tokens(all.take(i + 1)));
        i = i + 1;
    }
    assert(all.take(i as int) =~= all);
}

fn push_custom(tokens: &mut Vec<XmlToken>, custom: &Vec<(String, String)>)
    ensures
        final(tokens).deep_view() == old(tokens).deep_view() + custom_tokens(custom.deep_view()),
{
    let ghost before = tokens.deep_view();
    let ghost all = custom.deep_view();
    let mut i: usize = 0;
    assert(tokens.deep_view() =~= before + custom_tokens(all.take(0)));
    while i < custom.len()
        invariant
            i <= custom.len(),
            all == custom.deep_view(),
            tokens.deep_view() == before + custom_tokens(all.take(i as int)),
        decreases custom.len() - i,
    {
        proof {
            assert(all.take(i + 1).drop_last() =~= all.take(i as int));
            assert(all.take(i + 1).last() == custom[i as int].deep_view());
        }
        let mut property = String::from_str("cpublib:");
        property.append(custom[i].0.as_str());
        let attributes = one_pair("property", property.as_str());
        push_element(tokens, "dc:subject", Some(custom[i].1.as_str()), attributes);
        assert(tokens.deep_view() =~= before + custom_tokens(all.take(i + 1)));
        i = i + 1;
    }
    assert(all.take(i as int) =~= all);
}

/// Builds the metadata element.
pub fn metadata_section(metadata: &Metadata, modified: &str) -> (tokens: Vec<XmlToken>)
    ensures
        tokens.deep_view() == metadata_tokens(metadata@, modified@),
{
    let mut tokens: Vec<XmlToken> = Vec::new();
    assert(tokens.deep_view() =~= Seq::<XmlTokenView>::empty());
    push_start(
        &mut tokens,
        "metadata",
        one_pair("dc", "http://purl.org/dc/elements/1.1/"),
        no_pairs_list(),
    );
    push_plain_element(&mut tokens, "dc:type", "text");
    push_element(
        &mut tokens,
        "dc:identifier",
        Some(metadata.id.as_str()),
        one_pair("id", "bookid"),
    );
    push_element(&mut tokens, "meta", Some(modified), one_pair("property", "dcterms:modified"));
    push_element(
        &mut tokens,
        "meta",
        Some("pre-paginated"),
        one_pair("property", "rendition:layout"),
    );
    push_plain_element(&mut tokens, "dc:title", metadata.title.as_str());
    push_plain_element(&mut tokens, "dc:creator", metadata.author.as_str());
    push_plain_element(&mut tokens, "dc:publisher", metadata.publisher.as_str());
    push_plain_element(&mut tokens, "dc:date", metadata.published_date.text().as_str());
    push_plain_element(&mut tokens, "dc:language", metadata.language.as_str());
    push_optional_element(&mut tokens, "dc:description", &metadata.description);
    push_subjects(&mut tokens, &metadata.tags);
    push_custom(&mut tokens, &metadata.custom);
    push_optional_element(&mut tokens, "dc:source", &metadata.source);
    push_optional_element(&mut tokens, "dc:relation", &metadata.relation);
    push_optional_element(&mut tokens, "dc:rights", &metadata.copyright);
    push_end(&mut tokens);
    assert(tokens.deep_view() =~= metadata_tokens(metadata@, modified@));
    tokens
}

/// The manifest item of an image file. Its id is the page's base name behind
/// `i_`; the cover's image is marked as such.
pub open spec fn image_item(page: PageView, is_cover: bool) -> Seq<XmlTokenView> {
    let attributes = seq![
        ("href"@, image_file_name(page)),
        ("id"@, "i_"@ + page.base_name),
        ("media-type"@, page.mime_type),
    ];
    if is_cover {
        element("item"@, None, attributes.push(("properties"@, "cover-image"@)))
    } else {
        element("item"@, None, attributes)
    }
}

/// The manifest item of a page document. Its id is the file's name behind `p_`.
pub open spec fn document_item(file: Seq<char>) -> Seq<XmlTokenView> {
    element(
        "item"@,
        None,
        seq![
            ("href"@, file),
            ("id"@, "p_"@ + file),
            ("media-type"@, "application/xhtml+xml"@),
            ("properties"@, "svg"@),
        ],
    )
}

/// The manifest items of the page documents for `faces` of `page`.
pub open spec fn document_items(page: PageView, faces: Seq<PageFace>) -> Seq<XmlTokenView>
    decreases faces.len(),
{
    if faces.len() == 0 {
        Seq::empty()
    } else {
        document_items(page, faces.drop_last()) + document_item(
            page_file_name(page, faces.last()),
        )
    }
}

/// The manifest items of a body page: its image, then its page documents in
/// reading order.
pub open spec fn page_items(page: PageView, reading_rtl: bool) -> Seq<XmlTokenView> {
    image_item(page, false) + document_items(page, page_faces(page.spread, reading_rtl))
}

/// The manifest items of the body pages, in their order.
pub open spec fn body_items(pages: Seq<PageView>, reading_rtl: bool) -> Seq<XmlTokenView>
    decreases pages.len(),
{
    if pages.len() == 0 {
        Seq::empty()
    } else {
        body_items(pages.drop_last(), reading_rtl) + page_items(pages.last(), reading_rtl)
    }
}

/// The manifest items of the cover: its image and its page document.
pub open spec fn cover_items(cover: Option<PageView>) -> Seq<XmlTokenView> {
    match cover {
        Some(page) => image_item(page, true) + document_item(
            page_file_name(page, PageFace::Whole),
        ),
        None => Seq::empty(),
    }
}

/// The manifest: the navigation document, the cover, the body pages.
pub open spec fn manifest_tokens(
    cover: Option<PageView>,
    pages: Seq<PageView>,
    reading_rtl: bool,
) -> Seq<XmlTokenView> {
    seq![
        XmlTokenView::Start {
            name: "manifest"@,
            namespaces: no_pairs(),
            attributes: no_pairs(),
        },
    ] + element(
        "item"@,
        None,
        seq![
            ("href"@, "nav.xhtml"@),
            ("id"@, "nav"@),
            ("media-type"@, "application/xhtml+xml"@),
            ("properties"@, "nav"@),
        ],
    ) + cover_items(cover) + body_items(pages, reading_rtl) + seq![XmlTokenView::End]
}

/// The spine entry of one page document. The halves of a spread say on which
/// side they lie.
pub open spec fn spine_item(page: PageView, face: PageFace) -> Seq<XmlTokenView> {
    let reference = ("idref"@, "p_"@ + page_file_name(page, face));
    match face {
        PageFace::Whole => element("itemref"@, None, seq![reference]),
        PageFace::Left => element(
            "itemref"@,
            None,
            seq![reference, ("properties"@, "page-spread-left"@)],
        ),
        PageFace::Right => element(
            "itemref"@,
            None,
            seq![reference, ("properties"@, "page-spread-right"@)],
        ),
    }
}

/// The spine entries of the page documents for `faces` of `page`.
pub open spec fn spine_items(page: PageView, faces: Seq<PageFace>) -> Seq<XmlTokenView>
    decreases faces.len(),
{
    if faces.len() == 0 {
        Seq::empty()
    } else {
        spine_items(page, faces.drop_last()) + spine_item(page, faces.last())
    }
}

/// The spine entries of the body pages: the reading order.
pub open spec fn body_spine(pages: Seq<PageView>, reading_rtl: bool) -> Seq<XmlTokenView>
    decreases pages.len(),
{
    if pages.len() == 0 {
        Seq::empty()
    } else {
        body_spine(pages.drop_last(), reading_rtl) + spine_items(
            pages.last(),
            page_faces(pages.last().spread, reading_rtl),
        )
    }
}

/// The spine entry of the cover, which can be reached but is no part of the
/// reading order.
pub open spec fn cover_spine(cover: Option<PageView>) -> Seq<XmlTokenView> {
    match cover {
        Some(page) => element(
            "itemref"@,
            None,
            seq![("idref"@, "p_"@ + page_file_name(page, PageFace::Whole)), ("linear"@, "no"@)],
        ),
        None => Seq::empty(),
    }
}

/// How the spine names the direction of reading.
pub open spec fn progression_direction(reading_rtl: bool) -> Seq<char> {
    if reading_rtl {
        "rtl"@
    } else {
        "ltr"@
    }
}

/// The spine: the direction of reading, the cover, the body pages.
pub open spec fn spine_tokens(
    cover: Option<PageView>,
    pages: Seq<PageView>,
    reading_rtl: bool,
) -> Seq<XmlTokenView> {
    seq![
        XmlTokenView::Start {
            name: "spine"@,
            namespaces: no_pairs(),
            attributes: seq![
                ("page-progression-direction"@, progression_direction(reading_rtl)),
            ],
        },
    ] + cover_spine(cover) + body_spine(pages, reading_rtl) + seq![XmlTokenView::End]
}

/// The package document.
pub open spec fn opf_tokens(
    metadata: MetadataView,
    cover: Option<PageView>,
    pages: Seq<PageView>,
    modified: Seq<char>,
) -> Seq<XmlTokenView> {
    seq![
        XmlTokenView::Start {
            name: "package"@,
            namespaces: seq![(""@, "http://www.idpf.org/2007/opf"@)],
            attributes: seq![
                ("version"@, "3.0"@),
                (
                    "prefix"@,
                    "rendition: http://www.idpf.org/vocab/rendition/# cpublib: https://github.com/Aftnet/CPubLib"@,
                ),
                ("unique-identifier"@, "bookid"@),
            ],
        },
    ] + metadata_tokens(metadata, modified) + manifest_tokens(
        cover,
        pages,
        metadata.right_to_left,
    ) + spine_tokens(cover, pages, metadata.right_to_left) + seq![XmlTokenView::End]
}


fn push_image_item(tokens: &mut Vec<XmlToken>, page: &PageImage, is_cover: bool)
    ensures
        final(tokens).deep_view() == old(tokens).deep_view() + image_item(page@, is_cover),
{
    let mut id = String::from_str("i_");
    id.append(page.base_name.as_str());
    let mut attributes = one_pair("href", page.image_file_name().as_str());
    push_pair(&mut attributes, "id", id.as_str());
    push_pair(&mut attributes, "media-type", page.mime_type);
    assert(attributes.deep_view() =~= seq![
        ("href"@, image_file_name(page@)),
        ("id"@, "i_"@ + page@.base_name),
        ("media-type"@, page@.mime_type),
    ]);
    if is_cover {
        push_pair(&mut attributes, "properties", "cover-image");
    }
    push_element(tokens, "item", None, attributes);
}

fn push_document_item(tokens: &mut Vec<XmlToken>, file: &str)
    ensures
        final(tokens).deep_view() == old(tokens).deep_view() + document_item(file@),
{
    let mut id = String::from_str("p_");
    id.append(file);
    let mut attributes = one_pair("href", file);
    push_pair(&mut attributes, "id", id.as_str());
    push_pair(&mut attributes, "media-type", "application/xhtml+xml");
    push_pair(&mut attributes, "properties", "svg");
    assert(attributes.deep_view() =~= seq![
        ("href"@, file@),
        ("id"@, "p_"@ + file@),
        ("media-type"@, "application/xhtml+xml"@),
        ("properties"@, "svg"@),
    ]);
    push_element(tokens, "item", None, attributes);
}

fn push_page_items(tokens: &mut Vec<XmlToken>, page: &PageImage, reading_rtl: bool)
    ensures
        final(tokens).deep_view() == old(tokens).deep_view() + page_items(page@, reading_rtl),
{
    let ghost before = tokens.deep_view();
    push_image_item(tokens, page, false);
    let ghost head = before + image_item(page@, false);
    let faces = page.faces(reading_rtl);
    let mut i: usize = 0;
    assert(tokens.deep_view() =~= head + document_items(page@, faces@.take(0)));
    while i < faces.len()
        invariant
            i <= faces.len(),
            tokens.deep_view() == head + document_items(page@, faces@.take(i as int)),
        decreases faces.len() - i,
    {
        proof {
            assert(faces@.take(i + 1).drop_last() =~= faces@.take(i as int));
        }
        push_document_item(tokens, page.page_face_file_name(faces[i]).as_str());
        assert(tokens.deep_view() =~= head + document_items(page@, faces@.take(i + 1)));
        i = i + 1;
    }
    assert(faces@.take(i as int) =~= faces@);
    assert(tokens.deep_view() =~= before + page_items(page@, reading_rtl));
}

/// Builds the manifest.
pub fn manifest_section(cover: &Option<PageImage>, pages: &Vec<PageImage>, reading_rtl: bool) -> (tokens:
    Vec<XmlToken>)
    ensures
        tokens.deep_view() == manifest_tokens(cover.deep_view(), pages.deep_view(), reading_rtl),
{
    let mut tokens: Vec<XmlToken> = Vec::new();
    assert(tokens.deep_view() =~= Seq::<XmlTokenView>::empty());
    push_start(&mut tokens, "manifest", no_pairs_list(), no_pairs_list());
    let mut attributes = one_pair("href", "nav.xhtml");
    push_pair(&mut attributes, "id", "nav");
    push_pair(&mut attributes, "media-type", "application/xhtml+xml");
    push_pair(&mut attributes, "properties", "nav");
    assert(attributes.deep_view() =~= seq![
        ("href"@, "nav.xhtml"@),
        ("id"@, "nav"@),
        ("media-type"@, "application/xhtml+xml"@),
        ("properties"@, "nav"@),
    ]);
    push_element(&mut tokens, "item", None, attributes);
    match cover {
        Some(page) => {
            push_image_item(&mut tokens, page, true);
            push_document_item(&mut tokens, page.page_face_file_name(PageFace::Whole).as_str());
        },
        None => {},
    }
    let ghost head = tokens.deep_view();
    let ghost all = pages.deep_view();
    let mut i: usize = 0;
    assert(tokens.deep_view() =~= head + body_items(all.take(0), reading_rtl));
    while i < pages.len()
        invariant
            i <= pages.len(),
            all == pages.deep_view(),
            tokens.deep_view() == head + body_items(all.take(i as int), reading_rtl),
        decreases pages.len() - i,
    {
        proof {
            assert(all.take(i + 1).drop_last() =~= all.take(i as int));
            assert(all.take(i + 1).last() == pages[i as int]@);
        }
        push_page_items(&mut tokens, &pages[i], reading_rtl);
        assert(tokens.deep_view() =~= head + body_items(all.take(i + 1), reading_rtl));
        i = i + 1;
    }
    assert(all.take(i as int) =~= all);
    push_end(&mut tokens);
    assert(tokens.deep_view() =~= manifest_tokens(
        cover.deep_view(),
        pages.deep_view(),
        reading_rtl,
    ));
    tokens
}

fn push_spine_item(tokens: &mut Vec<XmlToken>, page: &PageImage, face: PageFace)
    ensures
        final(tokens).deep_view() == old(tokens).deep_view() + spine_item(page@, face),
{
    let mut reference = String::from_str("p_");
    reference.append(page.page_face_file_name(face).as_str());
    let mut attributes = one_pair("idref", reference.as_str());
    let ghost first = ("idref"@, "p_"@ + page_file_name(page@, face));
    match face {
        PageFace::Whole => {},
        PageFace::Left => {
            push_pair(&mut attributes, "properties", "page-spread-left");
            assert(attributes.deep_view() =~= seq![first, ("properties"@, "page-spread-left"@)]);
        },
        PageFace::Right => {
            push_pair(&mut attributes, "properties", "page-spread-right");
            assert(attributes.deep_view() =~= seq![first, ("properties"@, "page-spread-right"@)]);
        },
    }
    push_element(tokens, "itemref", None, attributes);
}

fn push_spine_items(tokens: &mut Vec<XmlToken>, page: &PageImage, reading_rtl: bool)
    ensures
        final(tokens).deep_view() == old(tokens).deep_view() + spine_items(
            page@,
            page_faces(page@.spread, reading_rtl),
        ),
{
    let ghost before = tokens.deep_view();
    let faces = page.faces(reading_rtl);
    let mut i: usize = 0;
    assert(tokens.deep_view() =~= before + spine_items(page@, faces@.take(0)));
    while i < faces.len()
        invariant
            i <= faces.len(),
            tokens.deep_view() == before + spine_items(page@, faces@.take(i as int)),
        decreases faces.len() - i,
    {
        proof {
            assert(faces@.take(i + 1).drop_last() =~= faces@.take(i as int));
        }
        push_spine_item(tokens, page, faces[i]);
        assert(tokens.deep_view() =~= before + spine_items(page@, faces@.take(i + 1)));
        i = i + 1;
    }
    assert(faces@.take(i as int) =~= faces@);
}

/// Builds the spine.
pub fn spine_section(cover: &Option<PageImage>, pages: &Vec<PageImage>, reading_rtl: bool) -> (tokens:
    Vec<XmlToken>)
    ensures
        tokens.deep_view() == spine_tokens(cover.deep_view(), pages.deep_view(), reading_rtl),
{
    let mut tokens: Vec<XmlToken> = Vec::new();
    assert(tokens.deep_view() =~= Seq::<XmlTokenView>::empty());
    let direction = if reading_rtl {
        "rtl"
    } else {
        "ltr"
    };
    push_start(
        &mut tokens,
        "spine",
        no_pairs_list(),
        one_pair("page-progression-direction", direction),
    );
    match cover {
        Some(page) => {
            let mut reference = String::from_str("p_");
            reference.append(page.page_face_file_name(PageFace::Whole).as_str());
            let mut attributes = one_pair("idref", reference.as_str());
            push_pair(&mut attributes, "linear", "no");
            assert(attributes.deep_view() =~= seq![
                ("idref"@, "p_"@ + page_file_name(page@, PageFace::Whole)),
                ("linear"@, "no"@),
            ]);
            push_element(&mut tokens, "itemref", None, attributes);
        },
        None => {},
    }
    let ghost head = tokens.deep_view();
    let ghost all = pages.deep_view();
    let mut i: usize = 0;
    assert(tokens.deep_view() =~= head + body_spine(all.take(0), reading_rtl));
    while i < pages.len()
        invariant
            i <= pages.len(),
            all == pages.deep_view(),
            tokens.deep_view() == head + body_spine(all.take(i as int), reading_rtl),
        decreases pages.len() - i,
    {
        proof {
            assert(all.take(i + 1).drop_last() =~= all.take(i as int));
            assert(all.take(i + 1).last() == pages[i as int]@);
        }
        push_spine_items(&mut tokens, &pages[i], reading_rtl);
        assert(tokens.deep_view() =~= head + body_spine(all.take(i + 1), reading_rtl));
        i = i + 1;
    }
    assert(all.take(i as int) =~= all);
    push_end(&mut tokens);
    assert(tokens.deep_view() =~= spine_tokens(cover.deep_view(), pages.deep_view(), reading_rtl));
    tokens
}

/// Builds the package document of a book with the given cover and body
/// pages, last changed at `modified`.
pub fn generate_content_opf(
    metadata: &Metadata,
    cover: &Option<PageImage>,
    pages: &Vec<PageImage>,
    modified: &str,
) -> (tokens: Vec<XmlToken>)
    ensures
        tokens.deep_view() == opf_tokens(
            metadata@,
            cover.deep_view(),
            pages.deep_view(),
            modified@,
        ),
{
    let mut tokens: Vec<XmlToken> = Vec::new();
    assert(tokens.deep_view() =~= Seq::<XmlTokenView>::empty());
    let mut attributes = one_pair("version", "3.0");
    push_pair(
        &mut attributes,
        "prefix",
        "rendition: http://www.idpf.org/vocab/rendition/# cpublib: https://github.com/Aftnet/CPubLib",
    );
    push_pair(&mut attributes, "unique-identifier", "bookid");
    assert(attributes.deep_view() =~= seq![
        ("version"@, "3.0"@),
        (
            "prefix"@,
            "rendition: http://www.idpf.org/vocab/rendition/# cpublib: https://github.com/Aftnet/CPubLib"@,
        ),
        ("unique-identifier"@, "bookid"@),
    ]);
    push_start(
        &mut tokens,
        "package",
        one_pair("", "http://www.idpf.org/2007/opf"),
        attributes,
    );
    push_all(&mut tokens, metadata_section(metadata, modified));
    push_all(&mut tokens, manifest_section(cover, pages, metadata.right_to_left));
    push_all(&mut tokens, spine_section(cover, pages, metadata.right_to_left));
    push_end(&mut tokens);
    assert(tokens.deep_view() =~= opf_tokens(
        metadata@,
        cover.deep_view(),
        pages.deep_view(),
        modified@,
    ));
    tokens
}

/// The spine names the direction of reading in the attribute of its first
/// token, by one word read from right to left and by another read from left
/// to right. The direction changes nothing in what the manifest and the
/// spine hold for a single page.
pub proof fn lemma_spine_states_reading_direction(
    cover: Option<PageView>,
    pages: Seq<PageView>,
    page: PageView,
    reading_rtl: bool,
)
    ensures
        progression_direction(true) != progression_direction(false),
        spine_tokens(cover, pages, reading_rtl)[0] == (XmlTokenView::Start {
            name: "spine"@,
            namespaces: no_pairs(),
            attributes: seq![("page-progression-direction"@, progression_direction(reading_rtl))],
        }),
        !page.spread ==> page_items(page, true) == page_items(page, false),
        !page.spread ==> spine_items(page, page_faces(page.spread, true)) == spine_items(
            page,
            page_faces(page.spread, false),
        ),
{
    reveal_strlit("rtl");
    reveal_strlit("ltr");
    assert("rtl"@[0] != "ltr"@[0]);
}

} // verus!
