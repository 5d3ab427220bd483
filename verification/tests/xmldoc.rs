use cpub::xmldoc::{push_element, push_end, push_pair, push_start, push_text, render, XmlToken};

fn pairs(items: &[(&str, &str)]) -> Vec<(String, String)> {
    items.iter().map(|(a, b)| (String::from(*a), String::from(*b))).collect()
}

fn start(name: &str, namespaces: &[(&str, &str)], attributes: &[(&str, &str)]) -> XmlToken {
    XmlToken::Start {
        name: String::from(name),
        namespaces: pairs(namespaces),
        attributes: pairs(attributes),
    }
}

fn rendered(tokens: &Vec<XmlToken>) -> String {
    String::from_utf8(render(tokens).unwrap()).unwrap()
}

#[test]
fn a_document_is_indented_and_declared() {
    let tokens = vec![
        start("root", &[("", "urn:default"), ("p", "urn:p")], &[("version", "1")]),
        start("p:leaf", &[], &[("a", "1"), ("b", "2")]),
        XmlToken::End,
        start("text", &[], &[]),
        XmlToken::Text(String::from("hello")),
        XmlToken::End,
        XmlToken::End,
    ];
    assert_eq!(
        rendered(&tokens),
        "<?xml version=\"1.0\" encoding=\"UTF-8\"?>\n\
         <root xmlns=\"urn:default\" xmlns:p=\"urn:p\" version=\"1\">\n  \
         <p:leaf a=\"1\" b=\"2\" />\n  \
         <text>hello</text>\n\
         </root>"
    );
}

#[test]
fn text_and_attribute_values_are_escaped() {
    let tokens = vec![
        start("a", &[], &[("v", "x<y & \"z\"")]),
        XmlToken::Text(String::from("1 < 2 & 3 > 2")),
        XmlToken::End,
    ];
    assert_eq!(
        rendered(&tokens),
        "<?xml version=\"1.0\" encoding=\"UTF-8\"?>\n\
         <a v=\"x&lt;y &amp; &quot;z&quot;\">1 &lt; 2 &amp; 3 &gt; 2</a>"
    );
}

#[test]
fn an_end_without_a_start_is_refused() {
    assert!(render(&vec![XmlToken::End]).is_err());
    assert!(render(&vec![start("a", &[], &[]), XmlToken::End, XmlToken::End]).is_err());
}

#[test]
fn an_empty_document_is_empty() {
    assert_eq!(render(&Vec::new()).unwrap(), Vec::<u8>::new());
}

#[test]
fn the_builders_add_the_tokens_they_name() {
    let mut tokens: Vec<XmlToken> = Vec::new();
    let mut attributes: Vec<(String, String)> = Vec::new();
    push_pair(&mut attributes, "k", "v");
    push_start(&mut tokens, "outer", Vec::new(), attributes);
    push_element(&mut tokens, "full", Some("text"), pairs(&[("a", "b")]));
    push_element(&mut tokens, "empty", None, Vec::new());
    push_text(&mut tokens, "tail");
    push_end(&mut tokens);
    assert_eq!(
        tokens,
        vec![
            start("outer", &[], &[("k", "v")]),
            start("full", &[], &[("a", "b")]),
            XmlToken::Text(String::from("text")),
            XmlToken::End,
            start("empty", &[], &[]),
            XmlToken::End,
            XmlToken::Text(String::from("tail")),
            XmlToken::End,
        ]
    );
}
