//! Helpers for making several volumes from one description: which files are
//! page images, and what a volume is called.

use crate::text::chars_of;
use vstd::prelude::*;
use vstd::string::*;

verus! {

/// What stands in a title for the number of the volume.
pub const VOLUME_NUMBER_PLACEHOLDER: &'static str = "%num%";

/// Whether `text` ends with `suffix`.
pub open spec fn ends_with(text: Seq<char>, suffix: Seq<char>) -> bool {
    suffix.len() <= text.len() && text.skip(text.len() - suffix.len()) == suffix
}

/// Whether a file of this name is taken for a page image: its name ends in
/// `.gif`, `.jpeg`, `.jpg` or `.png`, in lower case.
pub open spec fn is_supported_image_name(name: Seq<char>) -> bool {
    ||| ends_with(name, ".gif"@)
    ||| ends_with(name, ".jpeg"@)
    ||| ends_with(name, ".jpg"@)
    ||| ends_with(name, ".png"@)
}

/// Whether `pattern` stands in `text` at `index`.
pub open spec fn occurs_at(text: Seq<char>, index: int, pattern: Seq<char>) -> bool {
    0 <= index && index + pattern.len() <= text.len() && text.subrange(
        index,
        index + pattern.len(),
    ) == pattern
}

/// Whether `pattern` stands anywhere in `text`.
pub open spec fn contains(text: Seq<char>, pattern: Seq<char>) -> bool {
    exists|index: int| occurs_at(text, index, pattern)
}

/// `text` with every occurrence of `pattern` replaced, going from the left
/// and going on behind each occurrence that was replaced.
pub open spec fn replace_all(text: Seq<char>, pattern: Seq<char>, with: Seq<char>) -> Seq<char>
    decreases text.len(),
{
    if pattern.len() == 0 || text.len() == 0 {
        text
    } else if occurs_at(text, 0, pattern) {
        with + replace_all(text.skip(pattern.len() as int), pattern, with)
    } else {
        seq![text[0]] + replace_all(text.skip(1), pattern, with)
    }
}

/// The title of a volume: the pattern with the number in place of each
/// placeholder, or, for a pattern without placeholder, the pattern, ` vol. `
/// and the number.
pub open spec fn volume_title(pattern: Seq<char>, number: Seq<char>) -> Seq<char> {
    if contains(pattern, VOLUME_NUMBER_PLACEHOLDER@) {
        replace_all(pattern, VOLUME_NUMBER_PLACEHOLDER@, number)
    } else {
        pattern + " vol. "@ + number
    }
}

/// The number of a volume as it is written in `digits` columns, where the
/// formatter writes it.
pub uninterp spec fn formatted_number(number: u32, digits: u32) -> Option<Seq<char>>;

/// Calls `num_runtime_fmt::NumFmt::from_str` on the format `0` followed by
/// the width, and `fmt` on what it gives. A format that is refused, or a
/// number that is, gives nothing. The result depends on the number and the
/// width alone, which is all the contract claims.
#[verifier::external_body]
fn format_number(number: u32, digits: u32) -> (r: Option<String>)
    ensures
        r.deep_view() == formatted_number(number, digits),
{
    match num_runtime_fmt::NumFmt::from_str(&format!("0{}", digits)) {
        Ok(format) => format.fmt(number).ok(),
        Err(_) => None,
    }
}

/// Decides whether `pattern` stands in `text` at `index`.
pub fn occurs_in(text: &Vec<char>, index: usize, pattern: &Vec<char>) -> (found: bool)
    ensures
        found == occurs_at(text@, index as int, pattern@),
{
    if pattern.len() > text.len() || index > text.len() - pattern.len() {
        return false;
    }
    let mut k: usize = 0;
    while k < pattern.len()
        invariant
            k <= pattern.len(),
            index + pattern.len() <= text.len(),
            forall|j: int| 0 <= j < k ==> text@[index + j] == pattern@[j],
        decreases pattern.len() - k,
    {
        if text[index + k] != pattern[k] {
            assert(text@.subrange(index as int, index + pattern.len())[k as int] != pattern@[
                k as int
            ]);
            return false;
        }
        k = k + 1;
    }
    assert(text@.subrange(index as int, index + pattern.len()) =~= pattern@);
    true
}

/// Decides whether `text` ends with `suffix`.
pub fn text_ends_with(text: &Vec<char>, suffix: &Vec<char>) -> (found: bool)
    ensures
        found == ends_with(text@, suffix@),
{
    if suffix.len() > text.len() {
        return false;
    }
    let start = text.len() - suffix.len();
    let found = occurs_in(text, start, suffix);
    assert(text@.skip(start as int) =~= text@.subrange(start as int, start + suffix.len()));
    found
}

/// Decides whether a file of this name is taken for a page image.
pub fn has_supported_extension(name: &str) -> (supported: bool)
    ensures
        supported == is_supported_image_name(name@),
{
    let name = chars_of(name);
    text_ends_with(&name, &chars_of(".gif")) || text_ends_with(&name, &chars_of(".jpeg"))
        || text_ends_with(&name, &chars_of(".jpg")) || text_ends_with(&name, &chars_of(".png"))
}

/// Decides whether `pattern` stands anywhere in `text`.
pub fn text_contains(text: &Vec<char>, pattern: &Vec<char>) -> (found: bool)
    ensures
        found == contains(text@, pattern@),
{
    let mut i: usize = 0;
    while i < text.len()
        invariant
            i <= text.len(),
            forall|j: int| 0 <= j < i ==> !occurs_at(text@, j, pattern@),
        decreases text.len() - i,
    {
        if occurs_in(text, i, pattern) {
            return true;
        }
        i = i + 1;
    }
    occurs_in(text, i, pattern)
}

/// Replaces every occurrence of `pattern` in `text`.
pub fn replace_text(text: &str, pattern: &str, with: &str) -> (replaced: String)
    requires
        pattern@.len() > 0,
    ensures
        replaced@ == replace_all(text@, pattern@, with@),
{
    let source = chars_of(text);
    let sought = chars_of(pattern);
    let mut replaced = String::new();
    let mut i: usize = 0;
    assert(text@.skip(0) =~= text@);
    while i < source.len()
        invariant
            i <= source.len(),
            source@ == text@,
            sought@ == pattern@,
            pattern@.len() > 0,
            replace_all(text@, pattern@, with@) == replaced@ + replace_all(
                text@.skip(i as int),
                pattern@,
                with@,
            ),
        decreases source.len() - i,
    {
        let ghost rest = text@.skip(i as int);
        let ghost before = replaced@;
        if occurs_in(&source, i, &sought) {
            proof {
                assert(rest.subrange(0, pattern@.len() as int) =~= text@.subrange(
                    i as int,
                    i + pattern@.len(),
                ));
                assert(occurs_at(rest, 0, pattern@));
                assert(rest.skip(pattern@.len() as int) =~= text@.skip(i + pattern@.len()));
            }
            replaced.append(with);
            i = i + sought.len();
            assert(replaced@ + replace_all(text@.skip(i as int), pattern@, with@) =~= before + (
            with@ + replace_all(text@.skip(i as int), pattern@, with@)));
        } else {
            proof {
                if occurs_at(rest, 0, pattern@) {
                    assert(rest.subrange(0, pattern@.len() as int) =~= text@.subrange(
                        i as int,
                        i + pattern@.len(),
                    ));
                }
                assert(!occurs_at(rest, 0, pattern@));
                assert(rest.skip(1) =~= text@.skip(i + 1));
                assert(text@.subrange(i as int, i + 1) =~= seq![rest[0]]);
            }
            replaced.append(text.substring_char(i, i + 1));
            i = i + 1;
            assert(replaced@ + replace_all(text@.skip(i as int), pattern@, with@) =~= before + (
            seq![rest[0]] + replace_all(text@.skip(i as int), pattern@, with@)));
        }
    }
    assert(replaced@ + Seq::<char>::empty() =~= replaced@);
    replaced
}

/// Makes the title of a volume from the pattern and the number as it is
/// written.
pub fn title_of_volume(pattern: &str, number: &str) -> (title: String)
    ensures
        title@ == volume_title(pattern@, number@),
{
    proof {
        reveal_strlit("%num%");
    }
    if text_contains(&chars_of(pattern), &chars_of(VOLUME_NUMBER_PLACEHOLDER)) {
        replace_text(pattern, VOLUME_NUMBER_PLACEHOLDER, number)
    } else {
        let mut title = String::from_str(pattern);
        title.append(" vol. ");
        title.append(number);
        title
    }
}

/// Makes the title of the volume with this number, written in `digits`
/// columns. There is none where the formatter refuses the width or the
/// number.
pub fn numbered_title(pattern: &str, number: u32, digits: u32) -> (title: Option<String>)
    ensures
        title.deep_view() == match formatted_number(number, digits) {
            Some(text) => Some(volume_title(pattern@, text)),
            None => None,
        },
{
    match format_number(number, digits) {
        Some(text) => Some(title_of_volume(pattern, text.as_str())),
        None => None,
    }
}

} // verus!
