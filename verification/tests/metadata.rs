use cpub::metadata::{Metadata, PublishedDate};

fn metadata() -> Metadata {
    Metadata {
        id: String::from("urn:uuid:0001"),
        title: String::from("A Book"),
        author: String::from("An Author"),
        publisher: String::from("A Publisher"),
        published_date: PublishedDate { year: 2021, month: 3, day: 7 },
        language: String::from("en-us"),
        description: None,
        source: None,
        relation: None,
        copyright: None,
        series: None,
        tags: Vec::new(),
        custom: Vec::new(),
        right_to_left: false,
    }
}

fn chrono_text(date: &PublishedDate) -> String {
    chrono::NaiveDate::from_ymd_opt(date.year, date.month, date.day)
        .unwrap()
        .format("%Y-%m-%d")
        .to_string()
}

#[test]
fn filled_fields_validate() {
    assert!(metadata().validate().is_ok());
}

#[test]
fn an_empty_required_field_is_named() {
    let mut m = metadata();
    m.id = String::new();
    assert_eq!(m.validate().unwrap_err().field, "id");
    let mut m = metadata();
    m.title = String::new();
    assert_eq!(m.validate().unwrap_err().field, "title");
    let mut m = metadata();
    m.author = String::new();
    assert_eq!(m.validate().unwrap_err().field, "author");
    let mut m = metadata();
    m.publisher = String::new();
    assert_eq!(m.validate().unwrap_err().field, "publisher");
    let mut m = metadata();
    m.language = String::new();
    assert_eq!(m.validate().unwrap_err().field, "language");
}

#[test]
fn a_required_field_of_whitespace_is_named() {
    let mut m = metadata();
    m.id = String::from(" \t ");
    assert_eq!(m.validate().unwrap_err().field, "id");
    let mut m = metadata();
    m.title = String::from("\n");
    assert_eq!(m.validate().unwrap_err().field, "title");
    let mut m = metadata();
    m.author = String::from("\u{2003}\u{3000}");
    assert_eq!(m.validate().unwrap_err().field, "author");
    let mut m = metadata();
    m.publisher = String::from("  ");
    assert_eq!(m.validate().unwrap_err().field, "publisher");
    let mut m = metadata();
    m.language = String::from("\r\n");
    assert_eq!(m.validate().unwrap_err().field, "language");
}

#[test]
fn the_first_blank_field_is_named() {
    let mut m = metadata();
    m.language = String::new();
    m.author = String::from(" ");
    assert_eq!(m.validate().unwrap_err().field, "author");
}

#[test]
fn optional_fields_may_be_blank() {
    let mut m = metadata();
    m.description = Some(String::new());
    m.source = Some(String::from(" "));
    assert!(m.validate().is_ok());
}

#[test]
fn the_default_description_is_valid() {
    let m = Metadata::default();
    assert!(m.validate().is_ok());
    assert_eq!(m.id.len(), 36);
    assert!(m.id.chars().all(|c| c == '-' || c.is_ascii_digit() || ('a'..='f').contains(&c)));
    assert_eq!(m.title, "Title");
    assert_eq!(m.author, "Author name");
    assert_eq!(m.publisher, "Publisher name");
    assert_eq!(m.language, "en-us");
    assert_eq!(m.description, None);
    assert!(m.tags.is_empty());
    assert!(m.custom.is_empty());
    assert!(!m.right_to_left);
    assert!(1 <= m.published_date.month && m.published_date.month <= 12);
    assert!(1 <= m.published_date.day && m.published_date.day <= 31);
}

#[test]
fn two_default_descriptions_differ_in_their_identifier() {
    assert_ne!(Metadata::default().id, Metadata::default().id);
}

#[test]
fn dates_are_written_as_year_month_day() {
    assert_eq!(PublishedDate { year: 2021, month: 3, day: 7 }.text(), "2021-03-07");
    assert_eq!(PublishedDate { year: 1999, month: 12, day: 31 }.text(), "1999-12-31");
    assert_eq!(PublishedDate { year: 987, month: 1, day: 1 }.text(), "0987-01-01");
    assert_eq!(PublishedDate { year: 0, month: 2, day: 29 }.text(), "0000-02-29");
    assert_eq!(PublishedDate { year: -5, month: 6, day: 9 }.text(), "-0005-06-09");
    assert_eq!(PublishedDate { year: 10000, month: 10, day: 10 }.text(), "+10000-10-10");
}

#[test]
fn dates_are_written_as_chrono_writes_them() {
    let years = [-262143, -12345, -1000, -999, -1, 0, 1, 999, 1000, 2024, 9999, 10000, 262142];
    for year in years {
        for (month, day) in [(1, 1), (2, 28), (9, 30), (10, 9), (12, 31)] {
            let date = PublishedDate { year, month, day };
            assert_eq!(date.text(), chrono_text(&date));
        }
    }
}

#[test]
fn setters_and_getters() {
    let mut m = metadata();
    m.set_id("id-2");
    m.set_title("T");
    m.set_author("A");
    m.set_publisher("P");
    m.set_language("fr");
    m.set_description("D");
    m.set_source("S");
    m.set_relation("R");
    m.set_copyright("C");
    m.set_right_to_left(true);
    m.set_publishing_date(&PublishedDate { year: 2000, month: 1, day: 2 });
    m.tags().push(String::from("tag"));
    m.custom().push((String::from("k"), String::from("v")));
    assert_eq!(m.id(), "id-2");
    assert_eq!(m.title(), "T");
    assert_eq!(m.author(), "A");
    assert_eq!(m.publisher(), "P");
    assert_eq!(m.language(), "fr");
    assert_eq!(m.description(), &Some(String::from("D")));
    assert_eq!(m.source(), &Some(String::from("S")));
    assert_eq!(m.relation(), &Some(String::from("R")));
    assert_eq!(m.copyright(), &Some(String::from("C")));
    assert!(m.right_to_left());
    assert_eq!(m.publishing_date(), &PublishedDate { year: 2000, month: 1, day: 2 });
    assert_eq!(m.tags, vec![String::from("tag")]);
    assert_eq!(m.custom, vec![(String::from("k"), String::from("v"))]);
}

#[test]
fn tags_are_kept_as_a_sorted_set_keeps_them() {
    let words = ["pear", "apple", "pear", "", "apples", "Zebra", "\u{e9}t\u{e9}", "fig", "apple"];
    let mut m = metadata();
    let mut reference = std::collections::BTreeSet::new();
    for word in words {
        assert_eq!(m.insert_tag(word), reference.insert(String::from(word)), "{}", word);
    }
    let expected: Vec<String> = reference.into_iter().collect();
    assert_eq!(m.tags, expected);
    assert_eq!(
        m.tags,
        vec!["", "Zebra", "apple", "apples", "fig", "pear", "\u{e9}t\u{e9}"]
    );
}

#[test]
fn custom_properties_are_kept_as_a_sorted_map_keeps_them() {
    let pairs = [("b", "1"), ("a", "2"), ("c", "3"), ("a", "4"), ("ab", "5"), ("c", "6")];
    let mut m = metadata();
    let mut reference = std::collections::BTreeMap::new();
    for (key, value) in pairs {
        assert_eq!(
            m.insert_custom(key, value),
            reference.insert(String::from(key), String::from(value))
        );
    }
    let expected: Vec<(String, String)> = reference.into_iter().collect();
    assert_eq!(m.custom, expected);
    assert_eq!(
        m.custom,
        vec![
            (String::from("a"), String::from("4")),
            (String::from("ab"), String::from("5")),
            (String::from("b"), String::from("1")),
            (String::from("c"), String::from("6")),
        ]
    );
}
