use cpub::sequence::{Numbering, Sequencing};

#[test]
fn the_first_page_starts_the_first_group() {
    let first = Numbering::start().next(false);
    assert_eq!(first, Numbering { page_number: 1, chapter_number: 1 });
    assert_eq!(first.base_name(), "S01-C000001P000001");
}

#[test]
fn an_unlabelled_page_goes_on_in_its_group() {
    let third = Numbering::start().next(true).next(false).next(false);
    assert_eq!(third, Numbering { page_number: 1, chapter_number: 3 });
    assert_eq!(third.base_name(), "S01-C000001P000003");
}

#[test]
fn a_labelled_page_starts_a_new_group() {
    let page = Numbering::start().next(false).next(false).next(true);
    assert_eq!(page, Numbering { page_number: 2, chapter_number: 1 });
    assert_eq!(page.base_name(), "S01-C000002P000001");
    assert_eq!(page.next(false).base_name(), "S01-C000002P000002");
}

#[test]
fn base_names_keep_six_digits_at_least() {
    let wide = Numbering { page_number: 123456, chapter_number: 1234567 };
    assert_eq!(wide.base_name(), "S01-C123456P1234567");
    assert_eq!(Numbering::start().base_name(), "S01-C000000P000000");
}

#[test]
fn base_names_sort_as_the_pages_are_read() {
    let mut numbering = Numbering::start();
    let mut names: Vec<String> = Vec::new();
    for i in 0..2500 {
        numbering = numbering.next(i % 700 == 0);
        names.push(numbering.base_name());
    }
    let mut sorted = names.clone();
    sorted.sort();
    sorted.dedup();
    assert_eq!(names, sorted);
}

fn accepted(kinds: &[bool]) -> Result<Sequencing, (usize, u32)> {
    let mut state = Sequencing::start();
    for (i, spread) in kinds.iter().enumerate() {
        state = state.accept(false, *spread).map_err(|page_number| (i, page_number))?;
    }
    Ok(state)
}

#[test]
fn a_sequence_starts_without_pages_and_allows_no_spread() {
    let start = Sequencing::start();
    assert_eq!(start.pages, 0);
    assert!(!start.spread_allowed);
    assert_eq!(start.numbering, Numbering { page_number: 0, chapter_number: 0 });
}

#[test]
fn single_spread_single_is_a_sequence() {
    let state = accepted(&[false, true, false]).unwrap();
    assert_eq!(state.pages, 3);
    assert!(!state.spread_allowed);
    assert_eq!(state.numbering, Numbering { page_number: 1, chapter_number: 3 });
}

#[test]
fn two_spreads_without_a_single_page_before_them_fail_at_the_first() {
    assert_eq!(accepted(&[true, true]), Err((0, 1)));
}

#[test]
fn a_spread_is_refused_after_an_even_number_of_single_pages() {
    assert_eq!(accepted(&[false, false, true]), Err((2, 3)));
    assert_eq!(accepted(&[false, true, true, false, true]), Err((4, 5)));
    assert!(accepted(&[false, true, true, false, false, true]).is_ok());
}

#[test]
fn a_refusal_leaves_the_sequence_where_it_stood() {
    let state = Sequencing::start().accept(true, false).unwrap().accept(false, false).unwrap();
    assert_eq!(state.accept(false, true), Err(3));
    assert_eq!(state.pages, 2);
    assert_eq!(
        state.accept(true, false).unwrap(),
        Sequencing {
            numbering: Numbering { page_number: 2, chapter_number: 1 },
            spread_allowed: true,
            pages: 3,
        }
    );
}
