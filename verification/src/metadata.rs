//! The description of a book, and the check that its required fields are set.

use crate::errors::MetadataValidationError;
use crate::text::{
    chars_of, is_blank, is_invalid_string, is_whitespace, lemma_precedes_is_strict,
    lemma_precedes_is_transitive, order_of, precedes, zero_padded, zero_padded_text,
};
use vstd::prelude::*;
use vstd::string::*;

verus! {

/// The language of a book whose description names none.
pub const DEFAULT_LANGUAGE: &'static str = "en-us";

/// A calendar day.
#[derive(Clone, Copy, Debug, PartialEq, Eq, Structural)]
pub struct PublishedDate {
    /// The year of the proleptic Gregorian calendar; year 0 is 1 BCE.
    pub year: i32,
    /// The month, counted from 1.
    pub month: u32,
    /// The day of the month, counted from 1.
    pub day: u32,
}

/// The description of a book.
#[derive(Clone, Debug, PartialEq, Eq)]
pub struct Metadata {
    /// The identifier that tells this book from every other.
    pub id: String,
    pub title: String,
    pub author: String,
    pub publisher: String,
    pub published_date: PublishedDate,
    pub language: String,
    pub description: Option<String>,
    pub source: Option<String>,
    pub relation: Option<String>,
    pub copyright: Option<String>,
    pub series: Option<String>,
    /// The subjects of the book, in the order in which they are listed.
    pub tags: Vec<String>,
    /// Further properties, each a key with its value, in the order in which
    /// they are listed.
    pub custom: Vec<(String, String)>,
    /// Whether the book is read from right to left.
    pub right_to_left: bool,
}

/// What a `Metadata` holds, as plain values.
pub struct MetadataView {
    pub id: Seq<char>,
    pub title: Seq<char>,
    pub author: Seq<char>,
    pub publisher: Seq<char>,
    pub published_date: PublishedDate,
    pub language: Seq<char>,
    pub description: Option<Seq<char>>,
    pub source: Option<Seq<char>>,
    pub relation: Option<Seq<char>>,
    pub copyright: Option<Seq<char>>,
    pub series: Option<Seq<char>>,
    pub tags: Seq<Seq<char>>,
    pub custom: Seq<(Seq<char>, Seq<char>)>,
    pub right_to_left: bool,
}

impl View for Metadata {
    type V = MetadataView;

    open spec fn view(&self) -> MetadataView {
        MetadataView {
            id: self.id@,
            title: self.title@,
            author: self.author@,
            publisher: self.publisher@,
            published_date: self.published_date,
            language: self.language@,
            description: self.description.deep_view(),
            source: self.source.deep_view(),
            relation: self.relation.deep_view(),
            copyright: self.copyright.deep_view(),
            series: self.series.deep_view(),
            tags: self.tags.deep_view(),
            custom: self.custom.deep_view(),
            right_to_left: self.right_to_left,
        }
    }
}

/// The year as dates write it: four digits from year 0 to year 9999, and
/// outside of these a sign before at least four digits.
pub open spec fn year_text(year: int) -> Seq<char> {
    if 0 <= year <= 9999 {
        zero_padded(year as nat, 4)
    } else if year < 0 {
        "-"@ + zero_padded((-year) as nat, 4)
    } else {
        "+"@ + zero_padded(year as nat, 4)
    }
}

/// The day as `year-month-day`, month and day in two digits.
pub open spec fn date_text(date: PublishedDate) -> Seq<char> {
    year_text(date.year as int) + "-"@ + zero_padded(date.month as nat, 2) + "-"@ + zero_padded(
        date.day as nat,
        2,
    )
}

/// The first required field, in the order id, title, author, publisher,
/// language, that is empty or holds only whitespace.
pub open spec fn first_invalid_field(metadata: MetadataView) -> Option<Seq<char>> {
    if is_blank(metadata.id) {
        Some("id"@)
    } else if is_blank(metadata.title) {
        Some("title"@)
    } else if is_blank(metadata.author) {
        Some("author"@)
    } else if is_blank(metadata.publisher) {
        Some("publisher"@)
    } else if is_blank(metadata.language) {
        Some("language"@)
    } else {
        None
    }
}

/// A description is valid when none of its required fields is blank.
pub open spec fn is_valid(metadata: MetadataView) -> bool {
    &&& !is_blank(metadata.id)
    &&& !is_blank(metadata.title)
    &&& !is_blank(metadata.author)
    &&& !is_blank(metadata.publisher)
    &&& !is_blank(metadata.language)
}

impl PublishedDate {
    /// Writes the day as `year-month-day`.
    pub fn text(&self) -> (r: String)
        ensures
            r@ == date_text(*self),
    {
        let mut r = String::new();
        if 0 <= self.year && self.year <= 9999 {
            r.append(zero_padded_text(self.year as u32, 4).as_str());
        } else if self.year < 0 {
            r.append("-");
            let magnitude: i64 = -(self.year as i64);
            r.append(zero_padded_text(magnitude as u32, 4).as_str());
        } else {
            r.append("+");
            r.append(zero_padded_text(self.year as u32, 4).as_str());
        }
        assert(r@ =~= year_text(self.year as int));
        r.append("-");
        r.append(zero_padded_text(self.month, 2).as_str());
        r.append("-");
        r.append(zero_padded_text(self.day, 2).as_str());
        r
    }
}

impl Metadata {
    /// Checks the required fields in the order id, title, author, publisher,
    /// language, and names the first that is blank.
    pub fn validate(&self) -> (r: Result<(), MetadataValidationError>)
        ensures
            match first_invalid_field(self@) {
                None => r is Ok,
                Some(field) => r matches Err(e) && e.field@ == field,
            },
            r is Ok <==> is_valid(self@),
    {
        if is_invalid_string(self.id.as_str()) {
            return Err(MetadataValidationError { field: "id" });
        }
        if is_invalid_string(self.title.as_str()) {
            return Err(MetadataValidationError { field: "title" });
        }
        if is_invalid_string(self.author.as_str()) {
            return Err(MetadataValidationError { field: "author" });
        }
        if is_invalid_string(self.publisher.as_str()) {
            return Err(MetadataValidationError { field: "publisher" });
        }
        if is_invalid_string(self.language.as_str()) {
            return Err(MetadataValidationError { field: "language" });
        }
        Ok(())
    }
}

/// Validation succeeds exactly when no required field is blank; and a
/// required field that is blank, while those checked before it are not, is
/// the one that validation names. So it is where one field alone is blank.
pub proof fn lemma_validation_names_the_blank_field(metadata: MetadataView)
    ensures
        first_invalid_field(metadata) is None <==> is_valid(metadata),
        is_blank(metadata.id) ==> first_invalid_field(metadata) == Some("id"@),
        !is_blank(metadata.id) && is_blank(metadata.title) ==> first_invalid_field(metadata)
            == Some("title"@),
        !is_blank(metadata.id) && !is_blank(metadata.title) && is_blank(metadata.author)
            ==> first_invalid_field(metadata) == Some("author"@),
        !is_blank(metadata.id) && !is_blank(metadata.title) && !is_blank(metadata.author)
            && is_blank(metadata.publisher) ==> first_invalid_field(metadata) == Some(
            "publisher"@,
        ),
        !is_blank(metadata.id) && !is_blank(metadata.title) && !is_blank(metadata.author)
            && !is_blank(metadata.publisher) && is_blank(metadata.language)
            ==> first_invalid_field(metadata) == Some("language"@),
{
}

/// Whether `c` is a lower-case hexadecimal digit or a hyphen.
pub open spec fn is_id_char(c: char) -> bool {
    ||| '0' <= c <= '9'
    ||| 'a' <= c <= 'f'
    ||| c == '-'
}

/// Calls `uuid::Uuid::new_v4` and writes the identifier with
/// `to_hyphenated`: 32 lower-case hexadecimal digits in five groups with
/// hyphens between them, 36 characters in all. Which digits is left to
/// chance; the call stops the program if the system has no random bytes
/// to give.
#[verifier::external_body]
fn random_id() -> (id: String)
    ensures
        id@.len() == 36,
        forall|i: int| 0 <= i < id@.len() ==> is_id_char(#[trigger] id@[i]),
{
    uuid::Uuid::new_v4().to_hyphenated().to_string()
}

/// Calls `chrono::Utc::now` and reads the year, the month and the day of the
/// moment through `chrono::Datelike`. The day depends on when the call is
/// made, so nothing is claimed of it.
#[verifier::external_body]
fn today() -> (date: PublishedDate) {
    let now = chrono::Utc::now();
    PublishedDate {
        year: chrono::Datelike::year(&now),
        month: chrono::Datelike::month(&now),
        day: chrono::Datelike::day(&now),
    }
}

impl Default for Metadata {
    /// A description to start from: a fresh random identifier, today's date,
    /// placeholders for the fields that have to be set, and nothing else. It
    /// is valid as it is.
    fn default() -> (metadata: Metadata)
        ensures
            is_valid(metadata@),
            metadata@.title == "Title"@,
            metadata@.author == "Author name"@,
            metadata@.publisher == "Publisher name"@,
            metadata@.language == DEFAULT_LANGUAGE@,
            metadata@.description is None,
            metadata@.source is None,
            metadata@.relation is None,
            metadata@.copyright is None,
            metadata@.series is None,
            metadata@.tags.len() == 0,
            metadata@.custom.len() == 0,
            !metadata@.right_to_left,
    {
        let id = random_id();
        proof {
            reveal_strlit("Title");
            reveal_strlit("Author name");
            reveal_strlit("Publisher name");
            reveal_strlit("en-us");
            assert(!is_whitespace(id@[0]));
            assert(!is_whitespace("Title"@[0]));
            assert(!is_whitespace("Author name"@[0]));
            assert(!is_whitespace("Publisher name"@[0]));
            assert(!is_whitespace("en-us"@[0]));
        }
        Metadata {
            id,
            title: String::from_str("Title"),
            author: String::from_str("Author name"),
            publisher: String::from_str("Publisher name"),
            published_date: today(),
            language: String::from_str(DEFAULT_LANGUAGE),
            description: None,
            source: None,
            relation: None,
            copyright: None,
            series: None,
            tags: Vec::new(),
            custom: Vec::new(),
            right_to_left: false,
        }
    }
}

impl Metadata {
    /// The identifier of the book.
    pub fn id(&self) -> (value: &str)
        ensures
            value@ == self@.id,
    {
        self.id.as_str()
    }

    /// Sets the identifier, which may not be blank.
    pub fn set_id(&mut self, value: &str)
        requires
            !is_blank(value@),
        ensures
            final(self)@ == (MetadataView { id: value@, ..old(self)@ }),
    {
        self.id = String::from_str(value);
    }

    /// The title of the book.
    pub fn title(&self) -> (value: &str)
        ensures
            value@ == self@.title,
    {
        self.title.as_str()
    }

    /// Sets the title, which may not be blank.
    pub fn set_title(&mut self, value: &str)
        requires
            !is_blank(value@),
        ensures
            final(self)@ == (MetadataView { title: value@, ..old(self)@ }),
    {
        self.title = String::from_str(value);
    }

    /// The author of the book.
    pub fn author(&self) -> (value: &str)
        ensures
            value@ == self@.author,
    {
        self.author.as_str()
    }

    /// Sets the author, which may not be blank.
    pub fn set_author(&mut self, value: &str)
        requires
            !is_blank(value@),
        ensures
            final(self)@ == (MetadataView { author: value@, ..old(self)@ }),
    {
        self.author = String::from_str(value);
    }

    /// The publisher of the book.
    pub fn publisher(&self) -> (value: &str)
        ensures
            value@ == self@.publisher,
    {
        self.publisher.as_str()
    }

    /// Sets the publisher, which may not be blank.
    pub fn set_publisher(&mut self, value: &str)
        requires
            !is_blank(value@),
        ensures
            final(self)@ == (MetadataView { publisher: value@, ..old(self)@ }),
    {
        self.publisher = String::from_str(value);
    }

    /// The language of the book.
    pub fn language(&self) -> (value: &str)
        ensures
            value@ == self@.language,
    {
        self.language.as_str()
    }

    /// Sets the language, which may not be blank.
    pub fn set_language(&mut self, value: &str)
        requires
            !is_blank(value@),
        ensures
            final(self)@ == (MetadataView { language: value@, ..old(self)@ }),
    {
        self.language = String::from_str(value);
    }

    /// The description of the book, if it has one.
    pub fn description(&self) -> (value: &Option<String>)
        ensures
            value.deep_view() == self@.description,
    {
        &self.description
    }

    /// Sets the description.
    pub fn set_description(&mut self, value: &str)
        ensures
            final(self)@ == (MetadataView { description: Some(value@), ..old(self)@ }),
    {
        self.description = Some(String::from_str(value));
    }

    /// The source of the book, if it has one.
    pub fn source(&self) -> (value: &Option<String>)
        ensures
            value.deep_view() == self@.source,
    {
        &self.source
    }

    /// Sets the source.
    pub fn set_source(&mut self, value: &str)
        ensures
            final(self)@ == (MetadataView { source: Some(value@), ..old(self)@ }),
    {
        self.source = Some(String::from_str(value));
    }

    /// The relation of the book, if it has one.
    pub fn relation(&self) -> (value: &Option<String>)
        ensures
            value.deep_view() == self@.relation,
    {
        &self.relation
    }

    /// Sets the relation.
    pub fn set_relation(&mut self, value: &str)
        ensures
            final(self)@ == (MetadataView { relation: Some(value@), ..old(self)@ }),
    {
        self.relation = Some(String::from_str(value));
    }

    /// The copyright notice of the book, if it has one.
    pub fn copyright(&self) -> (value: &Option<String>)
        ensures
            value.deep_view() == self@.copyright,
    {
        &self.copyright
    }

    /// Sets the copyright notice.
    pub fn set_copyright(&mut self, value: &str)
        ensures
            final(self)@ == (MetadataView { copyright: Some(value@), ..old(self)@ }),
    {
        self.copyright = Some(String::from_str(value));
    }

    /// The day on which the book was published.
    pub fn publishing_date(&self) -> (value: &PublishedDate)
        ensures
            *value == self@.published_date,
    {
        &self.published_date
    }

    /// Sets the day on which the book was published.
    pub fn set_publishing_date(&mut self, value: &PublishedDate)
        ensures
            final(self)@ == (MetadataView { published_date: *value, ..old(self)@ }),
    {
        self.published_date = *value;
    }

    /// The subjects of the book, to read and to change.
    pub fn tags(&mut self) -> (tags: &mut Vec<String>)
        ensures
            tags.deep_view() == old(self)@.tags,
            final(self)@ == (MetadataView { tags: final(tags).deep_view(), ..old(self)@ }),
    {
        &mut self.tags
    }

    /// The further properties of the book, to read and to change.
    pub fn custom(&mut self) -> (custom: &mut Vec<(String, String)>)
        ensures
            custom.deep_view() == old(self)@.custom,
            final(self)@ == (MetadataView { custom: final(custom).deep_view(), ..old(self)@ }),
    {
        &mut self.custom
    }

    /// Whether the book is read from right to left.
    pub fn right_to_left(&self) -> (value: bool)
        ensures
            value == self@.right_to_left,
    {
        self.right_to_left
    }

    /// Says whether the book is read from right to left.
    pub fn set_right_to_left(&mut self, value: bool)
        ensures
            final(self)@ == (MetadataView { right_to_left: value, ..old(self)@ }),
    {
        self.right_to_left = value;
    }
}

/// Texts are in ascending order when each comes before all that follow it;
/// then none occurs twice.
pub open spec fn ascending(texts: Seq<Seq<char>>) -> bool {
    forall|i: int, j: int| 0 <= i < j < texts.len() ==> precedes(texts[i], texts[j])
}

/// The keys of custom properties, in their order.
pub open spec fn keys(custom: Seq<(Seq<char>, Seq<char>)>) -> Seq<Seq<char>> {
    custom.map_values(|property: (Seq<char>, Seq<char>)| property.0)
}

/// The tags and the custom properties are listed as a sorted set and a
/// sorted map list them: in ascending order of the tags and of the keys.
pub open spec fn in_order(metadata: MetadataView) -> bool {
    ascending(metadata.tags) && ascending(keys(metadata.custom))
}

/// Where `text` belongs among ascending texts: behind all that come before
/// it. Says also whether it stands there already.
fn tag_position(tags: &Vec<String>, text: &Vec<char>) -> (r: (usize, bool))
    requires
        ascending(tags.deep_view()),
    ensures
        r.0 <= tags.len(),
        forall|j: int| 0 <= j < r.0 ==> precedes(#[trigger] tags.deep_view()[j], text@),
        r.1 ==> r.0 < tags.len() && tags.deep_view()[r.0 as int] == text@,
        !r.1 ==> forall|j: int|
            r.0 <= j < tags.len() ==> precedes(text@, #[trigger] tags.deep_view()[j]),
{
    let ghost all = tags.deep_view();
    let mut i: usize = 0;
    while i < tags.len()
        invariant
            i <= tags.len(),
            all == tags.deep_view(),
            ascending(all),
            forall|j: int| 0 <= j < i ==> precedes(#[trigger] all[j], text@),
        decreases tags.len() - i,
    {
        let order = order_of(&chars_of(tags[i].as_str()), text);
        if order.1 {
            return (i, true);
        }
        if order.2 {
            assert forall|j: int| i <= j < tags.len() implies precedes(
                text@,
                #[trigger] all[j],
            ) by {
                if j > i {
                    lemma_precedes_is_transitive(text@, all[i as int], all[j]);
                }
            }
            return (i, false);
        }
        i = i + 1;
    }
    (i, false)
}

/// Where `key` belongs among properties with ascending keys. Says also
/// whether a property has this key already.
fn key_position(custom: &Vec<(String, String)>, key: &Vec<char>) -> (r: (usize, bool))
    requires
        ascending(keys(custom.deep_view())),
    ensures
        r.0 <= custom.len(),
        forall|j: int| 0 <= j < r.0 ==> precedes((#[trigger] custom.deep_view()[j]).0, key@),
        r.1 ==> r.0 < custom.len() && custom.deep_view()[r.0 as int].0 == key@,
        !r.1 ==> forall|j: int|
            r.0 <= j < custom.len() ==> precedes(key@, (#[trigger] custom.deep_view()[j]).0),
{
    let ghost all = custom.deep_view();
    let mut i: usize = 0;
    while i < custom.len()
        invariant
            i <= custom.len(),
            all == custom.deep_view(),
            ascending(keys(all)),
            forall|j: int| 0 <= j < i ==> precedes((#[trigger] all[j]).0, key@),
        decreases custom.len() - i,
    {
        let order = order_of(&chars_of(custom[i].0.as_str()), key);
        if order.1 {
            return (i, true);
        }
        if order.2 {
            assert forall|j: int| i <= j < custom.len() implies precedes(
                key@,
                (#[trigger] all[j]).0,
            ) by {
                if j > i {
                    assert(keys(all)[i as int] == all[i as int].0);
                    assert(keys(all)[j] == all[j].0);
                    lemma_precedes_is_transitive(key@, all[i as int].0, all[j].0);
                }
            }
            return (i, false);
        }
        i = i + 1;
    }
    (i, false)
}

impl Metadata {
    /// Adds a tag to tags in ascending order, at its place in that order,
    /// unless it is one of them already. Says whether it was added.
    pub fn insert_tag(&mut self, tag: &str) -> (added: bool)
        requires
            ascending(old(self)@.tags),
        ensures
            ascending(final(self)@.tags),
            added == !old(self)@.tags.contains(tag@),
            added ==> exists|i: int|
                0 <= i <= old(self)@.tags.len() && final(self)@.tags
                    == #[trigger] old(self)@.tags.insert(i, tag@),
            !added ==> final(self)@.tags == old(self)@.tags,
            final(self)@ == (MetadataView { tags: final(self)@.tags, ..old(self)@ }),
    {
        let ghost before = self.tags.deep_view();
        let position = tag_position(&self.tags, &chars_of(tag));
        proof {
            if position.1 {
                assert(before[position.0 as int] == tag@);
            } else {
                assert forall|j: int| 0 <= j < before.len() implies before[j] != tag@ by {
                    lemma_precedes_is_strict(before[j], tag@);
                }
            }
        }
        if position.1 {
            return false;
        }
        self.tags.insert(position.0, String::from_str(tag));
        proof {
            let after = self.tags.deep_view();
            let at = position.0 as int;
            assert(after =~= before.insert(at, tag@));
            assert forall|i: int, j: int| 0 <= i < j < after.len() implies precedes(
                after[i],
                after[j],
            ) by {
                let from = if i < at {
                    i
                } else {
                    i - 1
                };
                let to = if j < at {
                    j
                } else {
                    j - 1
                };
                if i != at && j != at {
                    assert(after[i] == before[from]);
                    assert(after[j] == before[to]);
                } else if i == at {
                    assert(after[j] == before[to]);
                } else {
                    assert(after[i] == before[from]);
                }
            }
        }
        true
    }

    /// Sets a custom property among properties with ascending keys: in place
    /// of the property with this key if there is one, whose value is handed
    /// back, and else at the key's place in the order.
    pub fn insert_custom(&mut self, key: &str, value: &str) -> (previous: Option<String>)
        requires
            ascending(keys(old(self)@.custom)),
        ensures
            ascending(keys(final(self)@.custom)),
            match previous {
                Some(was) => exists|i: int|
                    0 <= i < old(self)@.custom.len() && old(self)@.custom[i] == (key@, was@)
                        && final(self)@.custom == #[trigger] old(self)@.custom.update(
                        i,
                        (key@, value@),
                    ),
                None => !keys(old(self)@.custom).contains(key@) && exists|i: int|
                    0 <= i <= old(self)@.custom.len() && final(self)@.custom
                        == #[trigger] old(self)@.custom.insert(i, (key@, value@)),
            },
            final(self)@ == (MetadataView { custom: final(self)@.custom, ..old(self)@ }),
    {
        let ghost before = self.custom.deep_view();
        let position = key_position(&self.custom, &chars_of(key));
        let at = position.0;
        if position.1 {
            let mut property = (String::from_str(key), String::from_str(value));
            let ghost was = self.custom[at as int].1;
            std::mem::swap(&mut self.custom[at], &mut property);
            proof {
                let after = self.custom.deep_view();
                assert(after =~= before.update(at as int, (key@, value@)));
                assert(keys(after) =~= keys(before));
                assert(before[at as int] == (key@, property.1@));
            }
            return Some(property.1);
        }
        self.custom.insert(at, (String::from_str(key), String::from_str(value)));
        proof {
            let after = self.custom.deep_view();
            let at = at as int;
            assert(after =~= before.insert(at, (key@, value@)));
            assert forall|j: int| 0 <= j < before.len() implies keys(before)[j] != key@ by {
                lemma_precedes_is_strict(before[j].0, key@);
            }
            assert forall|i: int, j: int| 0 <= i < j < after.len() implies precedes(
                keys(after)[i],
                keys(after)[j],
            ) by {
                let from = if i < at {
                    i
                } else {
                    i - 1
                };
                let to = if j < at {
                    j
                } else {
                    j - 1
                };
                if i != at {
                    assert(after[i] == before[from]);
                    assert(keys(before)[from] == before[from].0);
                }
                if j != at {
                    assert(after[j] == before[to]);
                    assert(keys(before)[to] == before[to].0);
                }
            }
        }
        None
    }
}

} // verus!
