use cpub::metadata::{Metadata, PublishedDate};
use cpub::nav::{any_label, generate_nav_xml};
use cpub::opf::{generate_content_opf, manifest_section, metadata_section, spine_section};
use cpub::pageimage::PageImage;
use cpub::xmldoc::{render, XmlToken};

const XHTML: &str = "application/xhtml+xml";

fn metadata(right_to_left: bool) -> Metadata {
    Metadata {
        id: String::from("urn:uuid:0001"),
        title: String::from("A Book"),
        author: String::from("An Author"),
        publisher: String::from("A Publisher"),
        published_date: PublishedDate { year: 2021, month: 3, day: 7 },
        language: String::from("en-us"),
        description: None,
        source: None,
        relation: None,
        copyright: None,
        series: None,
        tags: Vec::new(),
        custom: Vec::new(),
        right_to_left,
    }
}

fn page(base_name: &str, label: Option<&str>, width: u32, height: u32) -> PageImage {
    PageImage {
        base_name: String::from(base_name),
        nav_label: label.map(String::from),
        extension: ".png",
        mime_type: "image/png",
        size: (width, height),
        spread: width > height,
    }
}

fn cover() -> Option<PageImage> {
    Some(page("S00-Cover", None, 2, 3))
}

fn pages() -> Vec<PageImage> {
    vec![
        page("S01-C000001P000001", Some("Ch1"), 2, 3),
        page("S01-C000001P000002", None, 4, 3),
        page("S01-C000002P000001", Some("Ch <2>"), 2, 3),
    ]
}

fn document(tokens: &Vec<XmlToken>) -> String {
    String::from_utf8(render(tokens).unwrap()).unwrap()
}

fn assert_lines(actual: &str, expected: &[String]) {
    let lines: Vec<&str> = actual.split('\n').collect();
    for (i, line) in expected.iter().enumerate() {
        assert_eq!(lines.get(i).copied(), Some(line.as_str()), "line {}", i + 1);
    }
    assert_eq!(lines.len(), expected.len());
}

fn item(href: &str, id: &str, media_type: &str, properties: Option<&str>) -> String {
    match properties {
        Some(p) => format!(
            "    <item href=\"{}\" id=\"{}\" media-type=\"{}\" properties=\"{}\" />",
            href, id, media_type, p
        ),
        None => format!("    <item href=\"{}\" id=\"{}\" media-type=\"{}\" />", href, id, media_type),
    }
}

fn head() -> Vec<String> {
    vec![
        String::from("<?xml version=\"1.0\" encoding=\"UTF-8\"?>"),
        String::from(
            "<package xmlns=\"http://www.idpf.org/2007/opf\" version=\"3.0\" prefix=\"rendition: http://www.idpf.org/vocab/rendition/# cpublib: https://github.com/Aftnet/CPubLib\" unique-identifier=\"bookid\">",
        ),
        String::from("  <metadata xmlns:dc=\"http://purl.org/dc/elements/1.1/\">"),
        String::from("    <dc:type>text</dc:type>"),
        String::from("    <dc:identifier id=\"bookid\">urn:uuid:0001</dc:identifier>"),
        String::from("    <meta property=\"dcterms:modified\">2024-01-02T03:04:05Z</meta>"),
        String::from("    <meta property=\"rendition:layout\">pre-paginated</meta>"),
        String::from("    <dc:title>A Book</dc:title>"),
        String::from("    <dc:creator>An Author</dc:creator>"),
        String::from("    <dc:publisher>A Publisher</dc:publisher>"),
        String::from("    <dc:date>2021-03-07</dc:date>"),
        String::from("    <dc:language>en-us</dc:language>"),
    ]
}

#[test]
fn the_package_document_of_a_small_book() {
    let mut expected = head();
    expected.push(String::from("  </metadata>"));
    expected.push(String::from("  <manifest>"));
    expected.push(item("nav.xhtml", "nav", XHTML, Some("nav")));
    expected.push(item("S00-Cover.png", "i_S00-Cover", "image/png", Some("cover-image")));
    expected.push(item("S00-Cover.xhtml", "p_S00-Cover.xhtml", XHTML, Some("svg")));
    expected.push(item("S01-C000001P000001.png", "i_S01-C000001P000001", "image/png", None));
    expected.push(item(
        "S01-C000001P000001.xhtml",
        "p_S01-C000001P000001.xhtml",
        XHTML,
        Some("svg"),
    ));
    expected.push(item("S01-C000001P000002.png", "i_S01-C000001P000002", "image/png", None));
    expected.push(item(
        "S01-C000001P000002_L.xhtml",
        "p_S01-C000001P000002_L.xhtml",
        XHTML,
        Some("svg"),
    ));
    expected.push(item(
        "S01-C000001P000002_R.xhtml",
        "p_S01-C000001P000002_R.xhtml",
        XHTML,
        Some("svg"),
    ));
    expected.push(item("S01-C000002P000001.png", "i_S01-C000002P000001", "image/png", None));
    expected.push(item(
        "S01-C000002P000001.xhtml",
        "p_S01-C000002P000001.xhtml",
        XHTML,
        Some("svg"),
    ));
    expected.push(String::from("  </manifest>"));
    expected.push(String::from("  <spine page-progression-direction=\"ltr\">"));
    expected.push(String::from("    <itemref idref=\"p_S00-Cover.xhtml\" linear=\"no\" />"));
    expected.push(String::from("    <itemref idref=\"p_S01-C000001P000001.xhtml\" />"));
    expected.push(String::from(
        "    <itemref idref=\"p_S01-C000001P000002_L.xhtml\" properties=\"page-spread-left\" />",
    ));
    expected.push(String::from(
        "    <itemref idref=\"p_S01-C000001P000002_R.xhtml\" properties=\"page-spread-right\" />",
    ));
    expected.push(String::from("    <itemref idref=\"p_S01-C000002P000001.xhtml\" />"));
    expected.push(String::from("  </spine>"));
    expected.push(String::from("</package>"));
    let tokens =
        generate_content_opf(&metadata(false), &cover(), &pages(), "2024-01-02T03:04:05Z");
    assert_lines(&document(&tokens), &expected);
}

#[test]
fn every_descriptive_field_has_its_element() {
    let mut m = metadata(false);
    m.description = Some(String::from("About <it>"));
    m.source = Some(String::from("a source"));
    m.relation = Some(String::from("a relation"));
    m.copyright = Some(String::from("(c) & co"));
    m.series = Some(String::from("a series"));
    m.tags = vec![String::from("zebra"), String::from("ant")];
    m.custom = vec![(String::from("key"), String::from("value"))];
    let mut expected = head();
    expected.remove(1);
    expected[1] = String::from("<metadata xmlns:dc=\"http://purl.org/dc/elements/1.1/\">");
    for line in expected.iter_mut().skip(2) {
        *line = String::from(&line[2..]);
    }
    expected.push(String::from("  <dc:description>About &lt;it&gt;</dc:description>"));
    expected.push(String::from("  <dc:subject>zebra</dc:subject>"));
    expected.push(String::from("  <dc:subject>ant</dc:subject>"));
    expected.push(String::from("  <dc:subject property=\"cpublib:key\">value</dc:subject>"));
    expected.push(String::from("  <dc:source>a source</dc:source>"));
    expected.push(String::from("  <dc:relation>a relation</dc:relation>"));
    expected.push(String::from("  <dc:rights>(c) &amp; co</dc:rights>"));
    expected.push(String::from("</metadata>"));
    assert_lines(&document(&metadata_section(&m, "2024-01-02T03:04:05Z")), &expected);
}

#[test]
fn right_to_left_changes_the_direction_and_the_order_of_the_halves() {
    let spine = document(&spine_section(&None, &pages(), true));
    assert_lines(
        &spine,
        &[
            String::from("<?xml version=\"1.0\" encoding=\"UTF-8\"?>"),
            String::from("<spine page-progression-direction=\"rtl\">"),
            String::from("  <itemref idref=\"p_S01-C000001P000001.xhtml\" />"),
            String::from(
                "  <itemref idref=\"p_S01-C000001P000002_R.xhtml\" properties=\"page-spread-right\" />",
            ),
            String::from(
                "  <itemref idref=\"p_S01-C000001P000002_L.xhtml\" properties=\"page-spread-left\" />",
            ),
            String::from("  <itemref idref=\"p_S01-C000002P000001.xhtml\" />"),
            String::from("</spine>"),
        ],
    );
    let manifest = document(&manifest_section(&None, &pages(), true));
    let right = manifest.find("S01-C000001P000002_R.xhtml").unwrap();
    let left = manifest.find("S01-C000001P000002_L.xhtml").unwrap();
    assert!(right < left);
    assert!(!manifest.contains("cover-image"));
}

#[test]
fn a_book_of_single_pages_differs_by_direction_in_the_spine_attribute_alone() {
    let singles = vec![page("a", None, 1, 2), page("b", Some("B"), 2, 2)];
    let ltr = document(&generate_content_opf(&metadata(false), &cover(), &singles, "now"));
    let rtl = document(&generate_content_opf(&metadata(true), &cover(), &singles, "now"));
    assert_ne!(ltr, rtl);
    assert_eq!(
        ltr.replace("page-progression-direction=\"ltr\"", "page-progression-direction=\"rtl\""),
        rtl
    );
}

#[test]
fn the_contents_list_the_labelled_pages() {
    let nav = document(&generate_nav_xml("A Book", &cover(), &pages(), false));
    assert_lines(
        &nav,
        &[
            String::from("<?xml version=\"1.0\" encoding=\"UTF-8\"?>"),
            String::from(
                "<html xmlns=\"http://www.w3.org/1999/xhtml\" xmlns:epub=\"http://www.idpf.org/2007/ops\">",
            ),
            String::from("  <head>"),
            String::from("    <meta charset=\"utf-8\" />"),
            String::from("    <title>Navigation</title>"),
            String::from("  </head>"),
            String::from("  <body>"),
            String::from("    <nav id=\"nav\" epub:type=\"toc\">"),
            String::from("      <ol>"),
            String::from("        <li>"),
            String::from("          <a href=\"S01-C000001P000001.xhtml\">Ch1</a>"),
            String::from("        </li>"),
            String::from("        <li>"),
            String::from("          <a href=\"S01-C000002P000001.xhtml\">Ch &lt;2&gt;</a>"),
            String::from("        </li>"),
            String::from("      </ol>"),
            String::from("    </nav>"),
            String::from("  </body>"),
            String::from("</html>"),
        ],
    );
}

#[test]
fn a_labelled_spread_is_entered_by_its_first_half() {
    let book = vec![page("a", None, 2, 3), page("b", Some("Wide"), 4, 3)];
    let ltr = document(&generate_nav_xml("T", &None, &book, false));
    assert!(ltr.contains("<a href=\"b_L.xhtml\">Wide</a>"));
    let rtl = document(&generate_nav_xml("T", &None, &book, true));
    assert!(rtl.contains("<a href=\"b_R.xhtml\">Wide</a>"));
}

#[test]
fn without_labels_the_contents_point_at_the_cover() {
    let book = vec![page("a", None, 2, 3), page("b", None, 4, 3)];
    assert!(!any_label(&book));
    assert!(any_label(&pages()));
    let nav = document(&generate_nav_xml("A <Book>", &cover(), &book, false));
    assert_eq!(nav.matches("<li>").count(), 1);
    assert!(nav.contains("<a href=\"S00-Cover.xhtml\">A &lt;Book&gt;</a>"));
}

#[test]
fn without_labels_and_cover_the_contents_point_at_the_first_page() {
    let book = vec![page("a", None, 2, 3), page("b", None, 4, 3)];
    let nav = document(&generate_nav_xml("A Book", &None, &book, false));
    assert_eq!(nav.matches("<li>").count(), 1);
    assert!(nav.contains("<a href=\"a.xhtml\">A Book</a>"));
}
