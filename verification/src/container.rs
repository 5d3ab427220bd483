//! The entries that a package is made of.

use crate::pageimage::{image_file_name, PageView};
use crate::templates::CONTAINER_XML;
use vstd::prelude::*;
use vstd::string::*;
use vstd::utf8::encode_utf8;

verus! {

/// The directory of the package that holds the book's content.
pub const CONTENT_DIRECTORY: &'static str = "OEBPS/";

/// One file of the package.
#[derive(Debug, PartialEq, Eq)]
pub struct ContainerEntry {
    /// The path of the file within the package.
    pub name: String,
    /// What the file holds.
    pub data: Vec<u8>,
    /// Whether the file may be compressed; if not it is stored as it is.
    pub compressed: bool,
}

/// A `ContainerEntry` as plain values.
pub struct EntryView {
    pub name: Seq<char>,
    pub data: Seq<u8>,
    pub compressed: bool,
}

impl View for ContainerEntry {
    type V = EntryView;

    open spec fn view(&self) -> EntryView {
        EntryView { name: self.name@, data: self.data@, compressed: self.compressed }
    }
}

impl DeepView for ContainerEntry {
    type V = EntryView;

    open spec fn deep_view(&self) -> EntryView {
        self@
    }
}

/// A file of the content directory that holds `data`.
pub open spec fn content_entry(file: Seq<char>, data: Seq<u8>) -> EntryView {
    EntryView { name: CONTENT_DIRECTORY@ + file, data, compressed: true }
}

/// A file of the content directory that holds `text`.
pub open spec fn text_entry(file: Seq<char>, text: Seq<char>) -> EntryView {
    content_entry(file, encode_utf8(text))
}

/// The files with which every package starts: the media type, stored as it
/// is, and the container document.
pub open spec fn static_entries() -> Seq<EntryView> {
    seq![
        EntryView {
            name: "mimetype"@,
            data: encode_utf8("application/epub+zip"@),
            compressed: false,
        },
        EntryView {
            name: "META-INF/container.xml"@,
            data: encode_utf8(CONTAINER_XML@),
            compressed: true,
        },
    ]
}

/// The files of page documents, each under its name, in their order.
pub open spec fn document_entries(documents: Seq<(Seq<char>, Seq<char>)>) -> Seq<EntryView> {
    documents.map_values(|document: (Seq<char>, Seq<char>)| text_entry(document.0, document.1))
}

/// The files that a page brings: its image, then its page documents.
pub open spec fn page_entries(
    page: PageView,
    image: Seq<u8>,
    documents: Seq<(Seq<char>, Seq<char>)>,
) -> Seq<EntryView> {
    seq![content_entry(image_file_name(page), image)] + document_entries(documents)
}

impl ContainerEntry {
    /// A file of the content directory that holds `data`.
    pub fn content(file: &str, data: Vec<u8>) -> (entry: ContainerEntry)
        ensures
            entry@ == content_entry(file@, data@),
    {
        let mut name = String::from_str(CONTENT_DIRECTORY);
        name.append(file);
        ContainerEntry { name, data, compressed: true }
    }

    /// A file of the content directory that holds `text`.
    pub fn text(file: &str, text: &str) -> (entry: ContainerEntry)
        ensures
            entry@ == text_entry(file@, text@),
    {
        ContainerEntry::content(file, text.as_bytes_vec())
    }
}

/// Adds an entry to a list of entries.
pub fn push_entry(entries: &mut Vec<ContainerEntry>, entry: ContainerEntry)
    ensures
        final(entries).deep_view() == old(entries).deep_view().push(entry@),
{
    let ghost before = entries.deep_view();
    entries.push(entry);
    assert(entries.deep_view() =~= before.push(entry@));
}

/// The files with which every package starts.
pub fn static_data() -> (entries: Vec<ContainerEntry>)
    ensures
        entries.deep_view() == static_entries(),
{
    let mut entries: Vec<ContainerEntry> = Vec::new();
    assert(entries.deep_view() =~= Seq::<EntryView>::empty());
    push_entry(
        &mut entries,
        ContainerEntry {
            name: String::from_str("mimetype"),
            data: "application/epub+zip".as_bytes_vec(),
            compressed: false,
        },
    );
    push_entry(
        &mut entries,
        ContainerEntry {
            name: String::from_str("META-INF/container.xml"),
            data: CONTAINER_XML.as_bytes_vec(),
            compressed: true,
        },
    );
    assert(entries.deep_view() =~= static_entries());
    entries
}

/// Adds the files that a page brings: its image, then its page documents.
pub fn push_page_entries(
    entries: &mut Vec<ContainerEntry>,
    image_name: &str,
    image: Vec<u8>,
    documents: &Vec<(String, String)>,
)
    ensures
        final(entries).deep_view() == old(entries).deep_view() + seq![
            content_entry(image_name@, image@),
        ] + document_entries(documents.deep_view()),
{
    let ghost before = entries.deep_view();
    let ghost head = before.push(content_entry(image_name@, image@));
    let ghost all = documents.deep_view();
    push_entry(entries, ContainerEntry::content(image_name, image));
    let mut i: usize = 0;
    assert(entries.deep_view() =~= head + document_entries(all.take(0)));
    while i < documents.len()
        invariant
            i <= documents.len(),
            all == documents.deep_view(),
            entries.deep_view() == head + document_entries(all.take(i as int)),
        decreases documents.len() - i,
    {
        push_entry(
            entries,
            ContainerEntry::text(documents[i].0.as_str(), documents[i].1.as_str()),
        );
        assert(entries.deep_view() =~= head + document_entries(all.take(i + 1)));
        i = i + 1;
    }
    assert(all.take(i as int) =~= all);
    assert(head =~= before + seq![content_entry(image_name@, image@)]);
}

} // verus!
