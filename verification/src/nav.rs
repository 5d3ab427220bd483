//! The navigation document: the table of contents of a book.

use crate::pageimage::{page_faces, page_file_name, PageFace, PageImage, PageView};
use crate::xmldoc::{
    no_pairs, no_pairs_list, one_pair, push_end, push_pair, push_start, push_text, XmlToken,
    XmlTokenView,
};
use vstd::prelude::*;
use vstd::string::*;

verus! {

/// The first page document of `page` in reading order.
pub open spec fn first_file_name(page: PageView, reading_rtl: bool) -> Seq<char> {
    page_file_name(page, page_faces(page.spread, reading_rtl)[0])
}

/// One entry of the table of contents: a list item that holds a link.
pub open spec fn nav_entry(target: Seq<char>, title: Seq<char>) -> Seq<XmlTokenView> {
    seq![
        XmlTokenView::Start { name: "li"@, namespaces: no_pairs(), attributes: no_pairs() },
        XmlTokenView::Start {
            name: "a"@,
            namespaces: no_pairs(),
            attributes: seq![("href"@, target)],
        },
        XmlTokenView::Text(title),
        XmlTokenView::End,
        XmlTokenView::End,
    ]
}

/// Whether any of `pages` carries a navigation label.
pub open spec fn has_label(pages: Seq<PageView>) -> bool
    decreases pages.len(),
{
    if pages.len() == 0 {
        false
    } else {
        has_label(pages.drop_last()) || pages.last().nav_label is Some
    }
}

/// One entry for each page that carries a navigation label, in the order of
/// the pages: the label as its title, the page's first document as its target.
pub open spec fn labelled_entries(pages: Seq<PageView>, reading_rtl: bool) -> Seq<XmlTokenView>
    decreases pages.len(),
{
    if pages.len() == 0 {
        Seq::empty()
    } else {
        labelled_entries(pages.drop_last(), reading_rtl) + match pages.last().nav_label {
            Some(label) => nav_entry(first_file_name(pages.last(), reading_rtl), label),
            None => Seq::empty(),
        }
    }
}

/// Where the table of contents points when no page carries a label: at the
/// cover, or at the first page of a book without one.
pub open spec fn fallback_target(
    cover: Option<PageView>,
    pages: Seq<PageView>,
    reading_rtl: bool,
) -> Seq<char> {
    match cover {
        Some(page) => page_file_name(page, PageFace::Whole),
        None => first_file_name(pages[0], reading_rtl),
    }
}

/// The entries of the table of contents: those of the labelled pages, or,
/// where there is none, a single entry under the book's title.
pub open spec fn toc_entries(
    title: Seq<char>,
    cover: Option<PageView>,
    pages: Seq<PageView>,
    reading_rtl: bool,
) -> Seq<XmlTokenView> {
    if has_label(pages) {
        labelled_entries(pages, reading_rtl)
    } else {
        nav_entry(fallback_target(cover, pages, reading_rtl), title)
    }
}

/// The navigation document up to its list of entries.
pub open spec fn nav_head() -> Seq<XmlTokenView> {
    seq![
        XmlTokenView::Start {
            name: "html"@,
            namespaces: seq![
                (""@, "http://www.w3.org/1999/xhtml"@),
                ("epub"@, "http://www.idpf.org/2007/ops"@),
            ],
            attributes: no_pairs(),
        },
        XmlTokenView::Start { name: "head"@, namespaces: no_pairs(), attributes: no_pairs() },
        XmlTokenView::Start {
            name: "meta"@,
            namespaces: no_pairs(),
            attributes: seq![("charset"@, "utf-8"@)],
        },
        XmlTokenView::End,
        XmlTokenView::Start { name: "title"@, namespaces: no_pairs(), attributes: no_pairs() },
        XmlTokenView::Text("Navigation"@),
        XmlTokenView::End,
        XmlTokenView::End,
        XmlTokenView::Start { name: "body"@, namespaces: no_pairs(), attributes: no_pairs() },
        XmlTokenView::Start {
            name: "nav"@,
            namespaces: no_pairs(),
            attributes: seq![("id"@, "nav"@), ("epub:type"@, "toc"@)],
        },
        XmlTokenView::Start { name: "ol"@, namespaces: no_pairs(), attributes: no_pairs() },
    ]
}

/// The navigation document.
pub open spec fn nav_tokens(
    title: Seq<char>,
    cover: Option<PageView>,
    pages: Seq<PageView>,
    reading_rtl: bool,
) -> Seq<XmlTokenView> {
    nav_head() + toc_entries(title, cover, pages, reading_rtl) + seq![
        XmlTokenView::End,
        XmlTokenView::End,
        XmlTokenView::End,
        XmlTokenView::End,
    ]
}



fn push_nav_entry(tokens: &mut Vec<XmlToken>, target: &str, title: &str)
    ensures
        final(tokens).deep_view() == old(tokens).deep_view() + nav_entry(target@, title@),
{
    let ghost before = tokens.deep_view();
    push_start(tokens, "li", no_pairs_list(), no_pairs_list());
    push_start(tokens, "a", no_pairs_list(), one_pair("href", target));
    push_text(tokens, title);
    push_end(tokens);
    push_end(tokens);
    assert(tokens.deep_view() =~= before + nav_entry(target@, title@));
}

fn first_file_name_of(page: &PageImage, reading_rtl: bool) -> (name: String)
    ensures
        name@ == first_file_name(page@, reading_rtl),
{
    let faces = page.faces(reading_rtl);
    page.page_face_file_name(faces[0])
}

/// Says whether any of the pages carries a navigation label.
pub fn any_label(pages: &Vec<PageImage>) -> (found: bool)
    ensures
        found == has_label(pages.deep_view()),
{
    let ghost all = pages.deep_view();
    let mut found = false;
    let mut i: usize = 0;
    while i < pages.len()
        invariant
            i <= pages.len(),
            all == pages.deep_view(),
            found == has_label(all.take(i as int)),
        decreases pages.len() - i,
    {
        proof {
            assert(all.take(i + 1).drop_last() =~= all.take(i as int));
            assert(all.take(i + 1).last() == pages[i as int]@);
        }
        if pages[i].nav_label.is_some() {
            found = true;
        }
        i = i + 1;
    }
    assert(all.take(i as int) =~= all);
    found
}

/// Builds the navigation document of a book with the given title, cover and
/// body pages. The book has a cover or a page, so that the contents have
/// something to point at.
pub fn generate_nav_xml(
    title: &str,
    cover: &Option<PageImage>,
    pages: &Vec<PageImage>,
    reading_rtl: bool,
) -> (tokens: Vec<XmlToken>)
    requires
        cover is Some || pages.len() > 0,
    ensures
        tokens.deep_view() == nav_tokens(
            title@,
            cover.deep_view(),
            pages.deep_view(),
            reading_rtl,
        ),
{
    let mut tokens: Vec<XmlToken> = Vec::new();
    assert(tokens.deep_view() =~= Seq::<XmlTokenView>::empty());
    let mut namespaces = one_pair("", "http://www.w3.org/1999/xhtml");
    push_pair(&mut namespaces, "epub", "http://www.idpf.org/2007/ops");
    assert(namespaces.deep_view() =~= seq![
        (""@, "http://www.w3.org/1999/xhtml"@),
        ("epub"@, "http://www.idpf.org/2007/ops"@),
    ]);
    push_start(&mut tokens, "html", namespaces, no_pairs_list());
    push_start(&mut tokens, "head", no_pairs_list(), no_pairs_list());
    push_start(&mut tokens, "meta", no_pairs_list(), one_pair("charset", "utf-8"));
    push_end(&mut tokens);
    push_start(&mut tokens, "title", no_pairs_list(), no_pairs_list());
    push_text(&mut tokens, "Navigation");
    push_end(&mut tokens);
    push_end(&mut tokens);
    push_start(&mut tokens, "body", no_pairs_list(), no_pairs_list());
    let mut attributes = one_pair("id", "nav");
    push_pair(&mut attributes, "epub:type", "toc");
    assert(attributes.deep_view() =~= seq![("id"@, "nav"@), ("epub:type"@, "toc"@)]);
    push_start(&mut tokens, "nav", no_pairs_list(), attributes);
    push_start(&mut tokens, "ol", no_pairs_list(), no_pairs_list());
    assert(tokens.deep_view() =~= nav_head());
    let ghost all = pages.deep_view();
    if any_label(pages) {
        let mut i: usize = 0;
        assert(tokens.deep_view() =~= nav_head() + labelled_entries(all.take(0), reading_rtl));
        while i < pages.len()
            invariant
                i <= pages.len(),
                all == pages.deep_view(),
                tokens.deep_view() == nav_head() + labelled_entries(
                    all.take(i as int),
                    reading_rtl,
                ),
            decreases pages.len() - i,
        {
            proof {
                assert(all.take(i + 1).drop_last() =~= all.take(i as int));
                assert(all.take(i + 1).last() == pages[i as int]@);
            }
            match &pages[i].nav_label {
                Some(label) => {
                    push_nav_entry(
                        &mut tokens,
                        first_file_name_of(&pages[i], reading_rtl).as_str(),
                        label.as_str(),
                    );
                },
                None => {},
            }
            assert(tokens.deep_view() =~= nav_head() + labelled_entries(
                all.take(i + 1),
                reading_rtl,
            ));
            i = i + 1;
        }
        assert(all.take(i as int) =~= all);
    } else {
        let target = match cover {
            Some(page) => page.page_face_file_name(PageFace::Whole),
            None => first_file_name_of(&pages[0], reading_rtl),
        };
        push_nav_entry(&mut tokens, target.as_str(), title);
    }
    push_end(&mut tokens);
    push_end(&mut tokens);
    push_end(&mut tokens);
    push_end(&mut tokens);
    assert(tokens.deep_view() =~= nav_tokens(
        title@,
        cover.deep_view(),
        pages.deep_view(),
        reading_rtl,
    ));
    tokens
}

} // verus!
