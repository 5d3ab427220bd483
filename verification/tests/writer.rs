use cpub::container::ContainerEntry;
use cpub::errors::EpubWriterError;
use cpub::metadata::{Metadata, PublishedDate};
use cpub::pageimage::PageImage;
use cpub::writer::EpubWriter;
use std::io::Cursor;

fn metadata(right_to_left: bool) -> Metadata {
    Metadata {
        id: String::from("urn:uuid:0001"),
        title: String::from("A Book"),
        author: String::from("An Author"),
        publisher: String::from("A Publisher"),
        published_date: PublishedDate { year: 2021, month: 3, day: 7 },
        language: String::from("en-us"),
        description: None,
        source: None,
        relation: None,
        copyright: None,
        series: None,
        tags: Vec::new(),
        custom: Vec::new(),
        right_to_left,
    }
}

fn png(width: u32, height: u32) -> Vec<u8> {
    let mut bytes: Vec<u8> = Vec::new();
    image::DynamicImage::ImageRgb8(image::RgbImage::new(width, height))
        .write_to(&mut Cursor::new(&mut bytes), image::ImageOutputFormat::Png)
        .unwrap();
    bytes
}

fn regular() -> Vec<u8> {
    png(2, 3)
}

fn spread() -> Vec<u8> {
    png(4, 3)
}

fn writer() -> EpubWriter {
    let mut writer = EpubWriter::new(metadata(false)).unwrap();
    writer.take_entries();
    writer
}

fn names(entries: &[ContainerEntry]) -> Vec<String> {
    entries.iter().map(|e| e.name.clone()).collect()
}

fn text(entry: &ContainerEntry) -> String {
    String::from_utf8(entry.data.clone()).unwrap()
}

#[test]
fn a_writer_is_not_made_of_an_invalid_description() {
    let mut m = metadata(false);
    m.publisher = String::from("   ");
    match EpubWriter::new(m) {
        Err(EpubWriterError::InvalidMetadataError(e)) => assert_eq!(e.field, "publisher"),
        _ => panic!("an invalid description was accepted"),
    }
}

#[test]
fn a_package_starts_with_its_media_type_and_its_container_document() {
    let mut writer = EpubWriter::new(metadata(false)).unwrap();
    assert_eq!(writer.page_count(), 0);
    assert!(!writer.has_cover());
    assert!(!writer.is_finalized());
    assert_eq!(writer.metadata().title, "A Book");
    let entries = writer.take_entries();
    assert_eq!(entries.len(), 2);
    assert_eq!(entries[0].name, "mimetype");
    assert_eq!(entries[0].data, b"application/epub+zip".to_vec());
    assert!(!entries[0].compressed);
    assert_eq!(entries[1].name, "META-INF/container.xml");
    assert_eq!(
        text(&entries[1]),
        "<?xml version=\"1.0\" encoding=\"UTF-8\" ?>\n\
         <container version=\"1.0\" xmlns=\"urn:oasis:names:tc:opendocument:xmlns:container\">\n  \
         <rootfiles>\n    \
         <rootfile full-path=\"OEBPS/content.opf\" media-type=\"application/oebps-package+xml\"/>\n  \
         </rootfiles>\n\
         </container>"
    );
    assert!(entries[1].compressed);
    assert!(writer.take_entries().is_empty());
}

#[test]
fn single_spread_single_is_accepted() {
    let mut writer = writer();
    assert!(writer.add_image(regular(), None).is_ok());
    assert!(writer.add_image(spread(), None).is_ok());
    assert!(writer.add_image(regular(), None).is_ok());
    assert_eq!(writer.page_count(), 3);
}

#[test]
fn a_spread_cannot_open_the_book() {
    let mut writer = writer();
    assert!(matches!(
        writer.add_image(spread(), None),
        Err(EpubWriterError::PageSortingError { page_number: 1 })
    ));
    assert_eq!(writer.page_count(), 0);
    assert!(writer.take_entries().is_empty());
    assert!(matches!(
        writer.add_image(spread(), None),
        Err(EpubWriterError::PageSortingError { page_number: 1 })
    ));
    assert!(writer.add_image(regular(), None).is_ok());
    assert!(writer.add_image(spread(), None).is_ok());
}

#[test]
fn a_spread_after_an_even_number_of_single_pages_is_refused_with_its_position() {
    let mut writer = writer();
    writer.add_image(regular(), None).unwrap();
    writer.add_image(regular(), None).unwrap();
    writer.take_entries();
    assert!(matches!(
        writer.add_image(spread(), None),
        Err(EpubWriterError::PageSortingError { page_number: 3 })
    ));
    assert_eq!(writer.page_count(), 2);
    assert!(writer.take_entries().is_empty());
}

#[test]
fn spreads_leave_the_rule_as_it_is() {
    let mut writer = writer();
    writer.add_image(regular(), None).unwrap();
    writer.add_image(spread(), None).unwrap();
    writer.add_image(spread(), None).unwrap();
    writer.add_image(regular(), None).unwrap();
    assert!(matches!(
        writer.add_image(spread(), None),
        Err(EpubWriterError::PageSortingError { page_number: 5 })
    ));
}

#[test]
fn classified_pages_follow_the_same_rule() {
    let mut writer = writer();
    let wide = PageImage::new(&spread(), None).unwrap();
    assert!(matches!(
        writer.add_page(wide, spread()),
        Err(EpubWriterError::PageSortingError { page_number: 1 })
    ));
    let tall = PageImage::new(&regular(), None).unwrap();
    assert!(writer.add_page(tall, regular()).is_ok());
    let wide = PageImage::new(&spread(), None).unwrap();
    assert!(writer.add_page(wide, spread()).is_ok());
    assert_eq!(
        names(&writer.take_entries()),
        vec![
            "OEBPS/S01-C000001P000001.png",
            "OEBPS/S01-C000001P000001.xhtml",
            "OEBPS/S01-C000001P000002.png",
            "OEBPS/S01-C000001P000002_L.xhtml",
            "OEBPS/S01-C000001P000002_R.xhtml",
        ]
    );
}

#[test]
fn an_accepted_page_brings_its_image_and_its_documents() {
    let mut writer = writer();
    let image = regular();
    writer.add_image(image.clone(), None).unwrap();
    let entries = writer.take_entries();
    assert_eq!(
        names(&entries),
        vec!["OEBPS/S01-C000001P000001.png", "OEBPS/S01-C000001P000001.xhtml"]
    );
    assert_eq!(entries[0].data, image);
    assert!(entries.iter().all(|e| e.compressed));
    let mut page = PageImage::new(&image, None).unwrap();
    page.base_name = String::from("S01-C000001P000001");
    assert_eq!(text(&entries[1]), page.generate_pages_xml(false)[0].1);
    assert!(text(&entries[1]).contains("xlink:href=\"S01-C000001P000001.png\""));
}

#[test]
fn right_to_left_puts_the_right_half_of_a_spread_first() {
    let mut writer = EpubWriter::new(metadata(true)).unwrap();
    writer.take_entries();
    writer.add_image(regular(), None).unwrap();
    let single = writer.take_entries();
    writer.add_image(spread(), None).unwrap();
    assert_eq!(
        names(&writer.take_entries()),
        vec![
            "OEBPS/S01-C000001P000002.png",
            "OEBPS/S01-C000001P000002_R.xhtml",
            "OEBPS/S01-C000001P000002_L.xhtml",
        ]
    );
    let mut other = EpubWriter::new(metadata(false)).unwrap();
    other.take_entries();
    other.add_image(regular(), None).unwrap();
    assert_eq!(other.take_entries(), single);
}

#[test]
fn labels_start_new_groups_of_names() {
    let mut writer = writer();
    writer.add_image(regular(), None).unwrap();
    writer.add_image(regular(), None).unwrap();
    writer.add_image(regular(), Some(String::from("Two"))).unwrap();
    writer.add_image(regular(), None).unwrap();
    writer.add_image(regular(), Some(String::from("Three"))).unwrap();
    let images: Vec<String> =
        names(&writer.take_entries()).into_iter().filter(|n| n.ends_with(".png")).collect();
    assert_eq!(
        images,
        vec![
            "OEBPS/S01-C000001P000001.png",
            "OEBPS/S01-C000001P000002.png",
            "OEBPS/S01-C000002P000001.png",
            "OEBPS/S01-C000002P000002.png",
            "OEBPS/S01-C000003P000001.png",
        ]
    );
}

#[test]
fn a_labelled_first_page_is_the_first_of_the_first_group() {
    let mut writer = writer();
    writer.add_image(regular(), Some(String::from("One"))).unwrap();
    writer.add_image(regular(), None).unwrap();
    let images: Vec<String> =
        names(&writer.take_entries()).into_iter().filter(|n| n.ends_with(".png")).collect();
    assert_eq!(images, vec!["OEBPS/S01-C000001P000001.png", "OEBPS/S01-C000001P000002.png"]);
}

#[test]
fn the_cover_is_written_under_its_fixed_name() {
    let mut writer = writer();
    let image = regular();
    writer.set_cover(image.clone()).unwrap();
    assert!(writer.has_cover());
    assert_eq!(writer.page_count(), 0);
    let entries = writer.take_entries();
    assert_eq!(names(&entries), vec!["OEBPS/S00-Cover.png", "OEBPS/S00-Cover.xhtml"]);
    assert_eq!(entries[0].data, image);
}

#[test]
fn a_second_cover_is_refused() {
    let mut writer = writer();
    writer.set_cover(regular()).unwrap();
    writer.take_entries();
    assert!(matches!(writer.set_cover(regular()), Err(EpubWriterError::CoverAlreadySetError)));
    assert!(matches!(
        writer.set_cover(b"no image".to_vec()),
        Err(EpubWriterError::CoverAlreadySetError)
    ));
    assert!(writer.take_entries().is_empty());
}

#[test]
fn a_cover_that_is_a_spread_is_refused() {
    let mut writer = writer();
    assert!(matches!(writer.set_cover(spread()), Err(EpubWriterError::CoverSizeError)));
    assert!(!writer.has_cover());
    assert!(writer.take_entries().is_empty());
    assert!(writer.set_cover(regular()).is_ok());
}

#[test]
fn a_classified_cover_loses_its_label() {
    let mut writer = writer();
    let page = PageImage::new(&regular(), Some(String::from("Cover"))).unwrap();
    writer.set_cover_page(page, regular()).unwrap();
    writer.add_image(regular(), None).unwrap();
    writer.finalize_at("2024-01-02T03:04:05Z").unwrap();
    let entries = writer.take_entries();
    let nav = entries.iter().find(|e| e.name == "OEBPS/nav.xhtml").unwrap();
    assert!(text(nav).contains("<a href=\"S00-Cover.xhtml\">A Book</a>"));
}

#[test]
fn the_cover_may_be_set_after_pages() {
    let mut writer = writer();
    writer.add_image(regular(), None).unwrap();
    assert!(writer.set_cover(regular()).is_ok());
    assert_eq!(writer.page_count(), 1);
}

#[test]
fn images_that_are_none_are_refused_and_change_nothing() {
    let mut writer = writer();
    assert!(matches!(
        writer.add_image(b"BM....".to_vec(), None),
        Err(EpubWriterError::UnsupportedImageError)
    ));
    assert!(matches!(
        writer.add_image(b"nothing".to_vec(), None),
        Err(EpubWriterError::InvalidImageError(_))
    ));
    assert!(matches!(
        writer.set_cover(b"RIFF....WEBP".to_vec()),
        Err(EpubWriterError::UnsupportedImageError)
    ));
    assert!(matches!(
        writer.set_cover(Vec::new()),
        Err(EpubWriterError::InvalidImageError(_))
    ));
    assert_eq!(writer.page_count(), 0);
    assert!(!writer.has_cover());
    assert!(writer.take_entries().is_empty());
}

#[test]
fn a_book_without_pages_cannot_be_finalized() {
    let mut empty = writer();
    assert!(matches!(empty.finalize(), Err(EpubWriterError::NoPagesError)));
    assert!(!empty.is_finalized());
    let mut covered = writer();
    covered.set_cover(regular()).unwrap();
    covered.take_entries();
    assert!(matches!(covered.finalize(), Err(EpubWriterError::NoPagesError)));
    assert!(matches!(covered.finalize(), Err(EpubWriterError::NoPagesError)));
    assert!(!covered.is_finalized());
    assert!(covered.take_entries().is_empty());
    covered.add_image(regular(), None).unwrap();
    assert!(covered.finalize().is_ok());
    assert!(covered.is_finalized());
}

#[test]
fn finalize_adds_the_two_documents_once() {
    let mut writer = writer();
    writer.add_image(regular(), None).unwrap();
    writer.take_entries();
    assert!(writer.finalize().is_ok());
    assert!(writer.is_finalized());
    assert_eq!(names(&writer.take_entries()), vec!["OEBPS/content.opf", "OEBPS/nav.xhtml"]);
    assert!(writer.finalize().is_ok());
    assert!(writer.finalize_at("2024-01-02T03:04:05Z").is_ok());
    assert!(writer.take_entries().is_empty());
    assert!(writer.is_finalized());
}

#[test]
fn a_finalized_writer_takes_no_more_changes() {
    let mut writer = writer();
    writer.add_image(regular(), None).unwrap();
    writer.finalize().unwrap();
    writer.take_entries();
    assert!(matches!(writer.add_image(regular(), None), Err(EpubWriterError::FinalizedError)));
    assert!(matches!(
        writer.add_image(b"nothing".to_vec(), None),
        Err(EpubWriterError::FinalizedError)
    ));
    assert!(matches!(writer.set_cover(regular()), Err(EpubWriterError::FinalizedError)));
    let page = PageImage::new(&regular(), None).unwrap();
    assert!(matches!(writer.add_page(page, regular()), Err(EpubWriterError::FinalizedError)));
    let page = PageImage::new(&regular(), None).unwrap();
    assert!(matches!(writer.set_cover_page(page, regular()), Err(EpubWriterError::FinalizedError)));
    assert_eq!(writer.page_count(), 1);
    assert!(writer.take_entries().is_empty());
}

#[test]
fn close_ends_the_package_without_its_documents() {
    let mut writer = writer();
    writer.add_image(regular(), None).unwrap();
    writer.take_entries();
    writer.close();
    assert!(writer.is_finalized());
    writer.close();
    assert!(writer.finalize().is_ok());
    assert!(writer.take_entries().is_empty());
    assert!(matches!(writer.add_image(regular(), None), Err(EpubWriterError::FinalizedError)));
}

#[test]
fn commit_reports_a_document_that_was_not_serialized() {
    let mut writer = writer();
    writer.add_image(regular(), None).unwrap();
    writer.take_entries();
    let failed = cpub::xmldoc::render(&vec![cpub::xmldoc::XmlToken::End]);
    assert!(matches!(
        writer.commit(Ok(b"opf".to_vec()), failed),
        Err(EpubWriterError::XmlWritingError(_))
    ));
    assert!(!writer.is_finalized());
    assert!(writer.take_entries().is_empty());
    assert!(writer.commit(Ok(b"opf".to_vec()), Ok(b"nav".to_vec())).is_ok());
    let entries = writer.take_entries();
    assert_eq!(names(&entries), vec!["OEBPS/content.opf", "OEBPS/nav.xhtml"]);
    assert_eq!(entries[0].data, b"opf".to_vec());
    assert_eq!(entries[1].data, b"nav".to_vec());
    assert!(writer.is_finalized());
}

#[test]
fn commit_without_pages_is_refused() {
    let mut writer = writer();
    assert!(matches!(
        writer.commit(Ok(Vec::new()), Ok(Vec::new())),
        Err(EpubWriterError::NoPagesError)
    ));
    assert!(!writer.is_finalized());
}

#[test]
fn a_spread_after_cover_and_two_single_pages_is_refused() {
    let mut writer = writer();
    writer.set_cover(regular()).unwrap();
    writer.add_image(regular(), Some(String::from("Ch1"))).unwrap();
    writer.add_image(regular(), None).unwrap();
    assert!(matches!(
        writer.add_image(spread(), None),
        Err(EpubWriterError::PageSortingError { page_number: 3 })
    ));
}

#[test]
fn with_a_leading_single_page_the_spread_is_accepted_and_the_contents_have_one_entry() {
    let mut writer = writer();
    writer.set_cover(regular()).unwrap();
    writer.add_image(regular(), None).unwrap();
    writer.add_image(regular(), Some(String::from("Ch1"))).unwrap();
    writer.add_image(regular(), None).unwrap();
    writer.add_image(spread(), None).unwrap();
    writer.finalize_at("2024-01-02T03:04:05Z").unwrap();
    let entries = writer.take_entries();
    let nav = text(entries.iter().find(|e| e.name == "OEBPS/nav.xhtml").unwrap());
    assert_eq!(nav.matches("<li>").count(), 1);
    assert_eq!(nav.matches("<a ").count(), 1);
    assert!(nav.contains("<a href=\"S01-C000002P000001.xhtml\">Ch1</a>"));
    assert!(names(&entries).contains(&String::from("OEBPS/S01-C000002P000001.xhtml")));
}

#[test]
fn finalize_dates_the_package_document_to_the_second() {
    let mut writer = writer();
    writer.add_image(regular(), None).unwrap();
    writer.take_entries();
    writer.finalize().unwrap();
    let entries = writer.take_entries();
    let opf = text(&entries[0]);
    let open = "<meta property=\"dcterms:modified\">";
    let start = opf.find(open).unwrap() + open.len();
    let end = start + opf[start..].find("</meta>").unwrap();
    let stamp = &opf[start..end];
    assert_eq!(stamp.len(), 20);
    assert!(stamp.ends_with('Z'));
    assert!(chrono::DateTime::parse_from_rfc3339(stamp).is_ok());
}

#[test]
fn finalize_at_writes_the_time_it_is_given() {
    let mut writer = writer();
    writer.add_image(regular(), None).unwrap();
    writer.take_entries();
    writer.finalize_at("2024-01-02T03:04:05Z").unwrap();
    let entries = writer.take_entries();
    assert!(text(&entries[0])
        .contains("<meta property=\"dcterms:modified\">2024-01-02T03:04:05Z</meta>"));
    assert!(text(&entries[0]).contains("<dc:identifier id=\"bookid\">urn:uuid:0001</dc:identifier>"));
    assert!(text(&entries[1]).contains("<a href=\"S01-C000001P000001.xhtml\">A Book</a>"));
}
