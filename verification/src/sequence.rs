//! The rules of sequencing: how pages are numbered and named, and where a
//! spread may stand.

use crate::pageimage::PageView;
use crate::text::{
    lemma_fixed_width_order, lemma_precedes_within, lemma_zero_padded_is_fixed_width, pow10,
    precedes, zero_padded, zero_padded_text,
};
use vstd::prelude::*;
use vstd::string::*;

verus! {

/// The base name of the cover.
pub const COVER_BASE_NAME: &'static str = "S00-Cover";

/// The two counters that name a body page. A page that carries a navigation
/// label, and the very first page, starts a new group: `page_number` counts
/// the groups, `chapter_number` the pages within the group at hand.
#[derive(Clone, Copy, Debug, PartialEq, Eq, Structural)]
pub struct Numbering {
    pub page_number: u32,
    pub chapter_number: u32,
}

/// The counters after one more page, which is labelled or not.
pub open spec fn next_numbering(numbering: (nat, nat), labelled: bool) -> (nat, nat) {
    if labelled || numbering.0 == 0 {
        (numbering.0 + 1, 1)
    } else {
        (numbering.0, numbering.1 + 1)
    }
}

/// The counters after `pages`; both are zero before the first page.
pub open spec fn numbering_after(pages: Seq<PageView>) -> (nat, nat)
    decreases pages.len(),
{
    if pages.len() == 0 {
        (0, 0)
    } else {
        next_numbering(numbering_after(pages.drop_last()), pages.last().nav_label is Some)
    }
}

/// The base name under the given counters: each in six digits at least, so
/// that names sort as the pages are read.
pub open spec fn base_name(numbering: (nat, nat)) -> Seq<char> {
    "S01-C"@ + zero_padded(numbering.0, 6) + "P"@ + zero_padded(numbering.1, 6)
}

/// Whether a spread may follow `pages`. It may after an odd number of single
/// pages: every single page switches the answer, a spread leaves it as it is,
/// and before the first page the answer is no.
pub open spec fn spread_allowed(pages: Seq<PageView>) -> bool
    decreases pages.len(),
{
    if pages.len() == 0 {
        false
    } else if pages.last().spread {
        spread_allowed(pages.drop_last())
    } else {
        !spread_allowed(pages.drop_last())
    }
}

/// Neither counter exceeds the number of pages.
pub proof fn lemma_numbering_bounded(pages: Seq<PageView>)
    ensures
        numbering_after(pages).0 <= pages.len(),
        numbering_after(pages).1 <= pages.len(),
        pages.len() > 0 ==> numbering_after(pages).0 >= 1 && numbering_after(pages).1 >= 1,
    decreases pages.len(),
{
    if pages.len() > 0 {
        lemma_numbering_bounded(pages.drop_last());
    }
}

impl Numbering {
    /// The counters as numbers without bound.
    pub open spec fn view(&self) -> (nat, nat) {
        (self.page_number as nat, self.chapter_number as nat)
    }

    /// The counters before the first page.
    pub fn start() -> (numbering: Numbering)
        ensures
            numbering@ == (0nat, 0nat),
    {
        Numbering { page_number: 0, chapter_number: 0 }
    }

    /// The counters after one more page.
    pub fn next(self, labelled: bool) -> (numbering: Numbering)
        requires
            self.page_number < u32::MAX,
            self.chapter_number < u32::MAX,
        ensures
            numbering@ == next_numbering(self@, labelled),
    {
        if labelled || self.page_number == 0 {
            Numbering { page_number: self.page_number + 1, chapter_number: 1 }
        } else {
            Numbering {
                page_number: self.page_number,
                chapter_number: self.chapter_number + 1,
            }
        }
    }

    /// The base name of the page that these counters stand at.
    pub fn base_name(&self) -> (name: String)
        ensures
            name@ == base_name(self@),
    {
        let mut name = String::from_str("S01-C");
        name.append(zero_padded_text(self.page_number, 6).as_str());
        name.append("P");
        name.append(zero_padded_text(self.chapter_number, 6).as_str());
        name
    }
}

/// Where a sequence of body pages stands: the counters, whether a spread may
/// follow, and how many pages there are. What the next page is called and
/// whether it is accepted depends on this and on the page alone.
#[derive(Clone, Copy, Debug, PartialEq, Eq, Structural)]
pub struct Sequencing {
    pub numbering: Numbering,
    pub spread_allowed: bool,
    pub pages: u32,
}

/// A `Sequencing` as numbers without bound.
pub struct SequencingView {
    pub numbering: (nat, nat),
    pub spread_allowed: bool,
    pub pages: nat,
}

/// Where a sequence stands after `pages`.
pub open spec fn sequencing_after(pages: Seq<PageView>) -> SequencingView {
    SequencingView {
        numbering: numbering_after(pages),
        spread_allowed: spread_allowed(pages),
        pages: pages.len(),
    }
}

/// Whether the next page is refused: it is if it is a spread and none is
/// allowed.
pub open spec fn refuses(state: SequencingView, spread: bool) -> bool {
    spread && !state.spread_allowed
}

/// Where the sequence stands after one more page, labelled or not and a
/// spread or not: the counters have moved on, and a single page has switched
/// whether a spread may follow.
pub open spec fn advanced(state: SequencingView, labelled: bool, spread: bool) -> SequencingView {
    SequencingView {
        numbering: next_numbering(state.numbering, labelled),
        spread_allowed: state.spread_allowed == spread,
        pages: state.pages + 1,
    }
}

impl Sequencing {
    /// The state as numbers without bound.
    pub open spec fn view(&self) -> SequencingView {
        SequencingView {
            numbering: self.numbering@,
            spread_allowed: self.spread_allowed,
            pages: self.pages as nat,
        }
    }

    /// Neither counter exceeds the number of pages.
    pub open spec fn wf(&self) -> bool {
        self.numbering.page_number <= self.pages && self.numbering.chapter_number <= self.pages
    }

    /// Where a sequence stands before its first page.
    pub fn start() -> (sequencing: Sequencing)
        ensures
            sequencing.wf(),
            sequencing@ == sequencing_after(Seq::empty()),
    {
        Sequencing { numbering: Numbering::start(), spread_allowed: false, pages: 0 }
    }

    /// Takes one more page, which is labelled or not and a spread or not. A
    /// spread where none is allowed is refused with the position that it
    /// would have had, counted from one. Any other page moves the sequence
    /// on.
    pub fn accept(self, labelled: bool, spread: bool) -> (r: Result<Sequencing, u32>)
        requires
            self.wf(),
            self.pages < u32::MAX,
        ensures
            match r {
                Ok(next) => !refuses(self@, spread) && next.wf() && next@ == advanced(
                    self@,
                    labelled,
                    spread,
                ),
                Err(page_number) => refuses(self@, spread) && page_number == self.pages + 1,
            },
    {
        if spread && !self.spread_allowed {
            return Err(self.pages + 1);
        }
        Ok(
            Sequencing {
                numbering: self.numbering.next(labelled),
                spread_allowed: self.spread_allowed == spread,
                pages: self.pages + 1,
            },
        )
    }
}

/// Taking a page keeps a sequence in step with its pages: from where it
/// stands after `pages`, one more page brings it where it stands after
/// `pages` and that page.
pub proof fn lemma_advanced_follows(pages: Seq<PageView>, page: PageView)
    ensures
        advanced(sequencing_after(pages), page.nav_label is Some, page.spread)
            == sequencing_after(pages.push(page)),
{
    assert(pages.push(page).drop_last() =~= pages);
}

/// The number of single pages among `pages`.
pub open spec fn single_pages(pages: Seq<PageView>) -> nat
    decreases pages.len(),
{
    if pages.len() == 0 {
        0
    } else if pages.last().spread {
        single_pages(pages.drop_last())
    } else {
        single_pages(pages.drop_last()) + 1
    }
}

/// A spread may follow exactly when the single pages so far are odd in
/// number.
pub proof fn lemma_spread_allowed_after_odd_singles(pages: Seq<PageView>)
    ensures
        spread_allowed(pages) <==> single_pages(pages) % 2 == 1,
    decreases pages.len(),
{
    if pages.len() > 0 {
        lemma_spread_allowed_after_odd_singles(pages.drop_last());
    }
}

/// Whether the counters `earlier` stand before the counters `later`: in an
/// earlier group, or earlier in the same group.
pub open spec fn numbering_before(earlier: (nat, nat), later: (nat, nat)) -> bool {
    earlier.0 < later.0 || (earlier.0 == later.0 && earlier.1 < later.1)
}

/// Every page moves the counters forward.
pub proof fn lemma_numbering_advances(pages: Seq<PageView>, shorter: int, longer: int)
    requires
        0 <= shorter < longer <= pages.len(),
    ensures
        numbering_before(
            numbering_after(pages.take(shorter)),
            numbering_after(pages.take(longer)),
        ),
    decreases longer,
{
    assert(pages.take(longer).drop_last() =~= pages.take(longer - 1));
    if shorter < longer - 1 {
        lemma_numbering_advances(pages, shorter, longer - 1);
    }
}

/// Base names sort as their counters do, as long as both counters have six
/// digits at most.
pub proof fn lemma_base_names_sort_as_counters(earlier: (nat, nat), later: (nat, nat))
    requires
        numbering_before(earlier, later),
        later.0 < 1_000_000,
        earlier.1 < 1_000_000,
        later.1 < 1_000_000,
    ensures
        precedes(base_name(earlier), base_name(later)),
{
    assert(pow10(6) == 1_000_000) by {
        reveal_with_fuel(pow10, 7);
    }
    lemma_zero_padded_is_fixed_width(earlier.0, 6);
    lemma_zero_padded_is_fixed_width(later.0, 6);
    lemma_zero_padded_is_fixed_width(earlier.1, 6);
    lemma_zero_padded_is_fixed_width(later.1, 6);
    if earlier.0 < later.0 {
        let k = lemma_fixed_width_order(earlier.0, later.0, 6);
        lemma_precedes_within(
            "S01-C"@,
            zero_padded(earlier.0, 6),
            zero_padded(later.0, 6),
            "P"@ + zero_padded(earlier.1, 6),
            "P"@ + zero_padded(later.1, 6),
            k,
        );
        assert(base_name(earlier) =~= "S01-C"@ + zero_padded(earlier.0, 6) + ("P"@
            + zero_padded(earlier.1, 6)));
        assert(base_name(later) =~= "S01-C"@ + zero_padded(later.0, 6) + ("P"@ + zero_padded(
            later.1,
            6,
        )));
    } else {
        let k = lemma_fixed_width_order(earlier.1, later.1, 6);
        lemma_precedes_within(
            "S01-C"@ + zero_padded(earlier.0, 6) + "P"@,
            zero_padded(earlier.1, 6),
            zero_padded(later.1, 6),
            Seq::empty(),
            Seq::empty(),
            k,
        );
        assert(base_name(earlier) =~= "S01-C"@ + zero_padded(earlier.0, 6) + "P"@ + zero_padded(
            earlier.1,
            6,
        ) + Seq::<char>::empty());
        assert(base_name(later) =~= "S01-C"@ + zero_padded(earlier.0, 6) + "P"@ + zero_padded(
            later.1,
            6,
        ) + Seq::<char>::empty());
    }
}

/// In a book of fewer than a million pages the base names sort as the pages
/// are read: the name that a place gives comes before the name that any
/// later place gives. So no two pages share a name.
pub proof fn lemma_base_names_sort_as_read(pages: Seq<PageView>, earlier: int, later: int)
    requires
        pages.len() < 1_000_000,
        0 <= earlier < later < pages.len(),
    ensures
        precedes(
            base_name(numbering_after(pages.take(earlier + 1))),
            base_name(numbering_after(pages.take(later + 1))),
        ),
        base_name(numbering_after(pages.take(earlier + 1))) != base_name(
            numbering_after(pages.take(later + 1)),
        ),
{
    lemma_numbering_advances(pages, earlier + 1, later + 1);
    lemma_numbering_bounded(pages.take(earlier + 1));
    lemma_numbering_bounded(pages.take(later + 1));
    lemma_base_names_sort_as_counters(
        numbering_after(pages.take(earlier + 1)),
        numbering_after(pages.take(later + 1)),
    );
    crate::text::lemma_precedes_is_strict(
        base_name(numbering_after(pages.take(earlier + 1))),
        base_name(numbering_after(pages.take(later + 1))),
    );
}

} // verus!
