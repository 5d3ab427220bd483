//! The sequencer: takes a cover and pages one at a time, numbers and names
//! them, keeps spreads where they may stand, and hands out the files of the
//! package as they become known.

use crate::classify::{classification, Classification};
use crate::container::{
    content_entry, page_entries, push_entry, push_page_entries, static_data, static_entries,
    ContainerEntry, EntryView,
};
use crate::errors::EpubWriterError;
use crate::metadata::{first_invalid_field, is_valid, Metadata, MetadataView};
use crate::nav::{generate_nav_xml, nav_tokens};
use crate::opf::{generate_content_opf, opf_tokens};
use crate::pageimage::{classified_page, label_view, pages_xml, PageImage, PageView};
use crate::sequence::{
    advanced, base_name, lemma_advanced_follows, lemma_base_names_sort_as_read,
    lemma_spread_allowed_after_odd_singles, numbering_after, refuses, sequencing_after,
    single_pages, spread_allowed, Sequencing, SequencingView, COVER_BASE_NAME,
};
use crate::text::precedes;
use crate::xmldoc::{all_accepted, render, serialized, XmlTokenView};
use vstd::prelude::*;
use vstd::string::*;

verus! {

/// Builds a package from a cover and pages.
pub struct EpubWriter {
    metadata: Metadata,
    images: Vec<PageImage>,
    cover: Option<PageImage>,
    finalized: bool,
    sequencing: Sequencing,
    pending: Vec<ContainerEntry>,
}

/// The state of a writer, as plain values.
#[verifier::ext_equal]
pub struct WriterView {
    /// The description of the book.
    pub metadata: MetadataView,
    /// The cover, once it is set.
    pub cover: Option<PageView>,
    /// The body pages, in reading order.
    pub pages: Seq<PageView>,
    /// Whether the package is closed.
    pub finalized: bool,
    /// Where the sequence of body pages stands.
    pub sequencing: SequencingView,
    /// The files that were produced and not yet taken, oldest first.
    pub pending: Seq<EntryView>,
}

/// The base name that the page at `index` of `pages` must have.
pub open spec fn base_name_at(pages: Seq<PageView>, index: int) -> Seq<char> {
    base_name(numbering_after(pages.take(index + 1)))
}

/// What holds of every writer: the description is valid; the cover has its
/// fixed name, no label, and is no spread; the sequence stands where the
/// body pages bring it; every body page has the base name that its place
/// gives it; and every spread stands where one is allowed.
pub open spec fn well_formed(writer: WriterView) -> bool {
    &&& is_valid(writer.metadata)
    &&& writer.sequencing == sequencing_after(writer.pages)
    &&& writer.cover matches Some(cover) ==> cover.base_name == COVER_BASE_NAME@ && !cover.spread
        && cover.nav_label is None
    &&& forall|i: int|
        0 <= i < writer.pages.len() ==> (#[trigger] writer.pages[i]).base_name == base_name_at(
            writer.pages,
            i,
        )
    &&& forall|i: int|
        0 <= i < writer.pages.len() && (#[trigger] writer.pages[i]).spread ==> spread_allowed(
            writer.pages.take(i),
        )
}

/// A writer that has taken nothing yet: the files with which every package
/// starts wait to be taken.
pub open spec fn initial(metadata: MetadataView) -> WriterView {
    WriterView {
        metadata,
        cover: None,
        pages: Seq::empty(),
        finalized: false,
        sequencing: sequencing_after(Seq::empty()),
        pending: static_entries(),
    }
}

/// The page as it is placed where the sequence stands: under the base name
/// of the counters that it moves the sequence to.
pub open spec fn placed_page(sequencing: SequencingView, page: PageView) -> PageView {
    PageView {
        base_name: base_name(advanced(sequencing, page.nav_label is Some, page.spread).numbering),
        ..page
    }
}

/// The writer after it has accepted `page`, whose data is `image`.
pub open spec fn with_page(writer: WriterView, page: PageView, image: Seq<u8>) -> WriterView {
    let placed = placed_page(writer.sequencing, page);
    WriterView {
        pages: writer.pages.push(placed),
        sequencing: advanced(writer.sequencing, page.nav_label is Some, page.spread),
        pending: writer.pending + page_entries(
            placed,
            image,
            pages_xml(placed, writer.metadata.right_to_left),
        ),
        ..writer
    }
}

/// The page as it becomes the cover: under the cover's name, without a label.
pub open spec fn cover_page(page: PageView) -> PageView {
    PageView { base_name: COVER_BASE_NAME@, nav_label: None, ..page }
}

/// The writer after it has accepted `page`, whose data is `image`, as cover.
pub open spec fn with_cover(writer: WriterView, page: PageView, image: Seq<u8>) -> WriterView {
    let cover = cover_page(page);
    WriterView {
        cover: Some(cover),
        pending: writer.pending + page_entries(
            cover,
            image,
            pages_xml(cover, writer.metadata.right_to_left),
        ),
        ..writer
    }
}

/// The writer after the package document and the navigation document, in
/// this order, have been added and the package has been closed.
pub open spec fn with_documents(writer: WriterView, opf: Seq<u8>, nav: Seq<u8>) -> WriterView {
    WriterView {
        finalized: true,
        pending: writer.pending + seq![
            content_entry("content.opf"@, opf),
            content_entry("nav.xhtml"@, nav),
        ],
        ..writer
    }
}

/// What adding a body page does. A closed writer refuses; a spread where none
/// is allowed is refused with its position, counted from one; any other page
/// is accepted. A refusal changes nothing.
pub open spec fn add_page_outcome(
    before: WriterView,
    page: PageView,
    image: Seq<u8>,
    after: WriterView,
    result: Result<(), EpubWriterError>,
) -> bool {
    if before.finalized {
        result matches Err(EpubWriterError::FinalizedError) && after == before
    } else if refuses(before.sequencing, page.spread) {
        &&& result matches Err(EpubWriterError::PageSortingError { page_number })
            && page_number == before.sequencing.pages + 1
        &&& after == before
    } else {
        result is Ok && after == with_page(before, page, image)
    }
}

/// What setting the cover does. A closed writer refuses, then one that has a
/// cover, then a cover that is a spread. A refusal changes nothing.
pub open spec fn set_cover_outcome(
    before: WriterView,
    page: PageView,
    image: Seq<u8>,
    after: WriterView,
    result: Result<(), EpubWriterError>,
) -> bool {
    if before.finalized {
        result matches Err(EpubWriterError::FinalizedError) && after == before
    } else if before.cover is Some {
        result matches Err(EpubWriterError::CoverAlreadySetError) && after == before
    } else if page.spread {
        result matches Err(EpubWriterError::CoverSizeError) && after == before
    } else {
        result is Ok && after == with_cover(before, page, image)
    }
}

/// What a serializer has made of a document, if it made one.
pub open spec fn rendered(document: Result<Vec<u8>, xml::writer::Error>) -> Option<Seq<u8>> {
    match document {
        Ok(bytes) => Some(bytes@),
        Err(_) => None,
    }
}

/// What closing a package with its two documents does. On a closed writer
/// it does nothing and succeeds. A book without body pages is refused. A
/// document that could not be serialized is reported. Otherwise the documents
/// are added and the writer is closed. A failure changes nothing.
pub open spec fn commit_outcome(
    before: WriterView,
    opf: Option<Seq<u8>>,
    nav: Option<Seq<u8>>,
    after: WriterView,
    result: Result<(), EpubWriterError>,
) -> bool {
    if before.finalized {
        result is Ok && after == before
    } else if before.pages.len() == 0 {
        result matches Err(EpubWriterError::NoPagesError) && after == before
    } else if opf is Some && nav is Some {
        result is Ok && after == with_documents(before, opf->Some_0, nav->Some_0)
    } else {
        result matches Err(EpubWriterError::XmlWritingError(_)) && after == before
    }
}

/// What reading image data as a body page does: a closed writer refuses;
/// data that is no supported image is refused as the classification says;
/// an image is added as the page it is classified as. A refusal changes
/// nothing.
pub open spec fn add_image_outcome(
    before: WriterView,
    image: Seq<u8>,
    label: Option<Seq<char>>,
    after: WriterView,
    result: Result<(), EpubWriterError>,
) -> bool {
    if before.finalized {
        result matches Err(EpubWriterError::FinalizedError) && after == before
    } else {
        match classification(image) {
            Classification::Image { kind, size } => add_page_outcome(
                before,
                classified_page(kind, size, label),
                image,
                after,
                result,
            ),
            Classification::Unsupported => result matches Err(
                EpubWriterError::UnsupportedImageError,
            ) && after == before,
            Classification::Invalid => result matches Err(EpubWriterError::InvalidImageError(_))
                && after == before,
        }
    }
}

/// What reading image data as the cover does: a closed writer refuses, then
/// one that has a cover; data that is no supported image is refused as the
/// classification says; an image becomes the cover unless it is a spread. A
/// refusal changes nothing.
pub open spec fn set_cover_image_outcome(
    before: WriterView,
    image: Seq<u8>,
    after: WriterView,
    result: Result<(), EpubWriterError>,
) -> bool {
    if before.finalized {
        result matches Err(EpubWriterError::FinalizedError) && after == before
    } else if before.cover is Some {
        result matches Err(EpubWriterError::CoverAlreadySetError) && after == before
    } else {
        match classification(image) {
            Classification::Image { kind, size } => set_cover_outcome(
                before,
                classified_page(kind, size, None),
                image,
                after,
                result,
            ),
            Classification::Unsupported => result matches Err(
                EpubWriterError::UnsupportedImageError,
            ) && after == before,
            Classification::Invalid => result matches Err(EpubWriterError::InvalidImageError(_))
                && after == before,
        }
    }
}

/// The tokens of the package document of a writer's book, last changed at
/// `modified`.
pub open spec fn package_tokens(writer: WriterView, modified: Seq<char>) -> Seq<XmlTokenView> {
    opf_tokens(writer.metadata, writer.cover, writer.pages, modified)
}

/// The tokens of the navigation document of a writer's book.
pub open spec fn navigation_tokens(writer: WriterView) -> Seq<XmlTokenView> {
    nav_tokens(writer.metadata.title, writer.cover, writer.pages, writer.metadata.right_to_left)
}

/// The package document of a writer's book, last changed at `modified`.
pub open spec fn package_document(writer: WriterView, modified: Seq<char>) -> Seq<u8> {
    serialized(package_tokens(writer, modified))
}

/// The navigation document of a writer's book.
pub open spec fn navigation_document(writer: WriterView) -> Seq<u8> {
    serialized(navigation_tokens(writer))
}

/// What closing the package of a book last changed at `modified` does. On a
/// closed writer it does nothing and succeeds. A book without body pages is
/// refused. Otherwise, where the serializer accepts both documents, they are
/// added as it makes them and the writer is closed; and where it does not
/// accept one of them, its failure is reported. A failure changes nothing.
pub open spec fn finalize_outcome(
    before: WriterView,
    modified: Seq<char>,
    after: WriterView,
    result: Result<(), EpubWriterError>,
) -> bool {
    if before.finalized {
        result is Ok && after == before
    } else if before.pages.len() == 0 {
        result matches Err(EpubWriterError::NoPagesError) && after == before
    } else if all_accepted(package_tokens(before, modified)) && all_accepted(
        navigation_tokens(before),
    ) {
        result is Ok && after == with_documents(
            before,
            package_document(before, modified),
            navigation_document(before),
        )
    } else {
        result matches Err(EpubWriterError::XmlWritingError(_)) && after == before
    }
}

impl View for EpubWriter {
    type V = WriterView;

    closed spec fn view(&self) -> WriterView {
        WriterView {
            metadata: self.metadata@,
            cover: self.cover.deep_view(),
            pages: self.images.deep_view(),
            finalized: self.finalized,
            sequencing: self.sequencing@,
            pending: self.pending.deep_view(),
        }
    }
}

impl EpubWriter {
    /// The invariant of a writer: its state is well formed, and its counters
    /// and its flag are what its pages make them.
    pub closed spec fn wf(&self) -> bool {
        &&& well_formed(self@)
        &&& self.sequencing.wf()
    }

    /// Starts a package for the book that `metadata` describes, if the
    /// description is valid.
    pub fn new(metadata: Metadata) -> (r: Result<EpubWriter, EpubWriterError>)
        ensures
            match first_invalid_field(metadata@) {
                Some(field) => r matches Err(EpubWriterError::InvalidMetadataError(e)) && e.field@
                    == field,
                None => r matches Ok(writer) && writer.wf() && writer@ == initial(metadata@),
            },
    {
        match metadata.validate() {
            Ok(()) => {},
            Err(e) => {
                return Err(EpubWriterError::InvalidMetadataError(e));
            },
        }
        let writer = EpubWriter {
            metadata,
            images: Vec::new(),
            cover: None,
            finalized: false,
            sequencing: Sequencing::start(),
            pending: static_data(),
        };
        assert(writer@.pages =~= Seq::<PageView>::empty());
        assert(writer@ =~= initial(metadata@));
        Ok(writer)
    }

    /// The description of the book.
    pub fn metadata(&self) -> (metadata: &Metadata)
        ensures
            metadata@ == self@.metadata,
    {
        &self.metadata
    }

    /// The number of body pages.
    pub fn page_count(&self) -> (count: usize)
        ensures
            count == self@.pages.len(),
    {
        self.images.len()
    }

    /// Whether the cover is set.
    pub fn has_cover(&self) -> (set: bool)
        ensures
            set == self@.cover is Some,
    {
        self.cover.is_some()
    }

    /// Whether the package is closed.
    pub fn is_finalized(&self) -> (closed: bool)
        ensures
            closed == self@.finalized,
    {
        self.finalized
    }

    /// Hands out the files produced since they were last taken, oldest first.
    pub fn take_entries(&mut self) -> (entries: Vec<ContainerEntry>)
        requires
            old(self).wf(),
        ensures
            final(self).wf(),
            entries.deep_view() == old(self)@.pending,
            final(self)@ == (WriterView { pending: Seq::empty(), ..old(self)@ }),
    {
        let mut entries: Vec<ContainerEntry> = Vec::new();
        std::mem::swap(&mut self.pending, &mut entries);
        assert(self@ =~= (WriterView { pending: Seq::empty(), ..old(self)@ }));
        entries
    }
}

/// Calls `chrono::Utc::now` and writes the moment with `to_rfc3339_opts`, to
/// the second and with `Z` for the offset. The text depends on when the call
/// is made, so nothing is claimed of it.
#[verifier::external_body]
fn modified_now() -> (text: String) {
    chrono::Utc::now().to_rfc3339_opts(chrono::SecondsFormat::Secs, true)
}

impl EpubWriter {
    /// Adds a classified page, whose data is `image`, behind the body pages.
    pub fn add_page(&mut self, page: PageImage, image: Vec<u8>) -> (r: Result<
        (),
        EpubWriterError,
    >)
        requires
            old(self).wf(),
            old(self)@.pages.len() < u32::MAX,
        ensures
            final(self).wf(),
            add_page_outcome(old(self)@, page@, image@, final(self)@, r),
    {
        if self.finalized {
            return Err(EpubWriterError::FinalizedError);
        }
        let ghost before = self@;
        let ghost given = page@;
        let next = match self.sequencing.accept(page.nav_label.is_some(), page.spread) {
            Ok(next) => next,
            Err(page_number) => {
                return Err(EpubWriterError::PageSortingError { page_number });
            },
        };
        proof {
            lemma_advanced_follows(before.pages, given);
        }
        let mut page = page;
        page.base_name = next.numbering.base_name();
        assert(page@ == placed_page(before.sequencing, given));
        let documents = page.generate_pages_xml(self.metadata.right_to_left);
        push_page_entries(
            &mut self.pending,
            page.image_file_name().as_str(),
            image,
            &documents,
        );
        self.sequencing = next;
        let ghost placed = page@;
        self.images.push(page);
        proof {
            let pages = self@.pages;
            assert(pages =~= before.pages.push(placed));
            assert(pages.drop_last() =~= before.pages);
            assert(self@ =~= with_page(before, given, image@));
            assert forall|i: int| 0 <= i < pages.len() implies (#[trigger] pages[i]).base_name
                == base_name_at(pages, i) by {
                if i < before.pages.len() {
                    assert(pages.take(i + 1) =~= before.pages.take(i + 1));
                    assert(pages[i] == before.pages[i]);
                } else {
                    assert(pages.take(i + 1) =~= pages);
                }
            }
            assert forall|i: int| 0 <= i < pages.len() && (#[trigger] pages[i]).spread implies spread_allowed(
                pages.take(i),
            ) by {
                if i < before.pages.len() {
                    assert(pages.take(i) =~= before.pages.take(i));
                    assert(pages[i] == before.pages[i]);
                } else {
                    assert(pages.take(i) =~= before.pages);
                }
            }
        }
        Ok(())
    }

    /// Reads image data as a page: classifies it, then adds it behind the
    /// body pages, under `label` if one is given.
    pub fn add_image(&mut self, image: Vec<u8>, label: Option<String>) -> (r: Result<
        (),
        EpubWriterError,
    >)
        requires
            old(self).wf(),
            old(self)@.pages.len() < u32::MAX,
        ensures
            final(self).wf(),
            add_image_outcome(old(self)@, image@, label_view(label), final(self)@, r),
    {
        if self.finalized {
            return Err(EpubWriterError::FinalizedError);
        }
        match PageImage::new(image.as_slice(), label) {
            Ok(page) => self.add_page(page, image),
            Err(e) => Err(e),
        }
    }

    /// Makes a classified page, whose data is `image`, the cover.
    pub fn set_cover_page(&mut self, page: PageImage, image: Vec<u8>) -> (r: Result<
        (),
        EpubWriterError,
    >)
        requires
            old(self).wf(),
        ensures
            final(self).wf(),
            set_cover_outcome(old(self)@, page@, image@, final(self)@, r),
    {
        if self.finalized {
            return Err(EpubWriterError::FinalizedError);
        }
        if self.cover.is_some() {
            return Err(EpubWriterError::CoverAlreadySetError);
        }
        if page.spread {
            return Err(EpubWriterError::CoverSizeError);
        }
        let ghost before = self@;
        let ghost given = page@;
        let mut page = page;
        page.base_name = String::from_str(COVER_BASE_NAME);
        page.nav_label = None;
        assert(page@ == cover_page(given));
        let documents = page.generate_pages_xml(self.metadata.right_to_left);
        push_page_entries(
            &mut self.pending,
            page.image_file_name().as_str(),
            image,
            &documents,
        );
        self.cover = Some(page);
        assert(self@ =~= with_cover(before, given, image@));
        Ok(())
    }

    /// Reads image data as the cover: classifies it, then makes it the cover.
    pub fn set_cover(&mut self, image: Vec<u8>) -> (r: Result<(), EpubWriterError>)
        requires
            old(self).wf(),
        ensures
            final(self).wf(),
            set_cover_image_outcome(old(self)@, image@, final(self)@, r),
    {
        if self.finalized {
            return Err(EpubWriterError::FinalizedError);
        }
        if self.cover.is_some() {
            return Err(EpubWriterError::CoverAlreadySetError);
        }
        match PageImage::new(image.as_slice(), None) {
            Ok(page) => self.set_cover_page(page, image),
            Err(e) => Err(e),
        }
    }

    /// Closes the package with its two documents as a serializer made them.
    pub fn commit(
        &mut self,
        opf: Result<Vec<u8>, xml::writer::Error>,
        nav: Result<Vec<u8>, xml::writer::Error>,
    ) -> (r: Result<(), EpubWriterError>)
        requires
            old(self).wf(),
        ensures
            final(self).wf(),
            commit_outcome(old(self)@, rendered(opf), rendered(nav), final(self)@, r),
    {
        if self.finalized {
            return Ok(());
        }
        if self.images.len() == 0 {
            return Err(EpubWriterError::NoPagesError);
        }
        let opf = match opf {
            Ok(bytes) => bytes,
            Err(e) => {
                return Err(EpubWriterError::XmlWritingError(e));
            },
        };
        let nav = match nav {
            Ok(bytes) => bytes,
            Err(e) => {
                return Err(EpubWriterError::XmlWritingError(e));
            },
        };
        let ghost before = self@;
        push_entry(&mut self.pending, ContainerEntry::content("content.opf", opf));
        push_entry(&mut self.pending, ContainerEntry::content("nav.xhtml", nav));
        self.finalized = true;
        assert(self@ =~= with_documents(before, opf@, nav@));
        Ok(())
    }

    /// Closes the package of a book that was last changed at `modified`:
    /// builds the package document and the navigation document, serializes
    /// them and adds them. On a closed writer it does nothing and succeeds;
    /// a book without body pages is refused; a failure changes nothing.
    pub fn finalize_at(&mut self, modified: &str) -> (r: Result<(), EpubWriterError>)
        requires
            old(self).wf(),
        ensures
            final(self).wf(),
            finalize_outcome(old(self)@, modified@, final(self)@, r),
    {
        if self.finalized {
            return Ok(());
        }
        if self.images.len() == 0 {
            return Err(EpubWriterError::NoPagesError);
        }
        let opf = render(
            &generate_content_opf(&self.metadata, &self.cover, &self.images, modified),
        );
        let nav = render(
            &generate_nav_xml(
                self.metadata.title.as_str(),
                &self.cover,
                &self.images,
                self.metadata.right_to_left,
            ),
        );
        self.commit(opf, nav)
    }

    /// Closes the package of a book that was last changed now. See
    /// `finalize_at`.
    pub fn finalize(&mut self) -> (r: Result<(), EpubWriterError>)
        requires
            old(self).wf(),
        ensures
            final(self).wf(),
            exists|modified: Seq<char>| #[trigger]
                finalize_outcome(old(self)@, modified, final(self)@, r),
    {
        let modified = modified_now();
        self.finalize_at(modified.as_str())
    }

    /// Closes the writer without adding the documents of the package. A
    /// closed writer stays as it is.
    pub fn close(&mut self)
        requires
            old(self).wf(),
        ensures
            final(self).wf(),
            final(self)@ == (WriterView { finalized: true, ..old(self)@ }),
    {
        self.finalized = true;
        assert(self@ =~= (WriterView { finalized: true, ..old(self)@ }));
    }
}

/// Closing a package twice is closing it once: after a call that succeeded,
/// another succeeds and changes nothing, so no document is added twice.
pub proof fn lemma_finalize_is_idempotent(
    before: WriterView,
    modified: Seq<char>,
    once: WriterView,
    first: Result<(), EpubWriterError>,
    modified_again: Seq<char>,
    twice: WriterView,
    second: Result<(), EpubWriterError>,
)
    requires
        finalize_outcome(before, modified, once, first),
        first is Ok,
        finalize_outcome(once, modified_again, twice, second),
    ensures
        second is Ok,
        twice == once,
        once.finalized,
{
}

/// A book without body pages cannot be closed, with a cover or without.
pub proof fn lemma_finalize_needs_pages(
    before: WriterView,
    modified: Seq<char>,
    after: WriterView,
    result: Result<(), EpubWriterError>,
)
    requires
        !before.finalized,
        before.pages.len() == 0,
        finalize_outcome(before, modified, after, result),
    ensures
        result matches Err(EpubWriterError::NoPagesError),
        after == before,
{
}

/// In a well-formed book of fewer than a million pages, the base names of
/// the pages sort as the pages are read, so no two pages share a name; and
/// a spread has an odd number of single pages before it.
pub proof fn lemma_pages_are_in_order(writer: WriterView, earlier: int, later: int)
    requires
        well_formed(writer),
        0 <= earlier < later < writer.pages.len(),
    ensures
        writer.pages.len() < 1_000_000 ==> precedes(
            writer.pages[earlier].base_name,
            writer.pages[later].base_name,
        ) && writer.pages[earlier].base_name != writer.pages[later].base_name,
        writer.pages[later].spread ==> single_pages(writer.pages.take(later)) % 2 == 1,
{
    if writer.pages.len() < 1_000_000 {
        lemma_base_names_sort_as_read(writer.pages, earlier, later);
    }
    lemma_spread_allowed_after_odd_singles(writer.pages.take(later));
}

impl EpubWriter {
    /// The state of a writer that keeps its invariant is well formed.
    pub proof fn lemma_well_formed(&self)
        requires
            self.wf(),
        ensures
            well_formed(self@),
            self@.sequencing.pages == self@.pages.len(),
            self@.pages.len() <= u32::MAX,
    {
    }
}

} // verus!
