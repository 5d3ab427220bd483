//! Documents as sequences of tokens, and their serialization.

use vstd::prelude::*;
use vstd::string::*;

verus! {

/// The serializer, with the output it has produced so far.
#[verifier::external_type_specification]
#[verifier::external_body]
#[verifier::reject_recursive_types(W)]
pub struct ExEventWriter<W>(xml::writer::EventWriter<W>);

/// One step of writing a document.
#[derive(Debug, PartialEq, Eq)]
pub enum XmlToken {
    /// Opens an element. A namespace is a prefix with its URI, the empty
    /// prefix standing for the default namespace; an attribute is a name with
    /// its value.
    Start { name: String, namespaces: Vec<(String, String)>, attributes: Vec<(String, String)> },
    /// Character data.
    Text(String),
    /// Closes the element that was opened last.
    End,
}

/// An `XmlToken` as plain values.
pub enum XmlTokenView {
    Start {
        name: Seq<char>,
        namespaces: Seq<(Seq<char>, Seq<char>)>,
        attributes: Seq<(Seq<char>, Seq<char>)>,
    },
    Text(Seq<char>),
    End,
}

impl View for XmlToken {
    type V = XmlTokenView;

    open spec fn view(&self) -> XmlTokenView {
        match self {
            XmlToken::Start { name, namespaces, attributes } => XmlTokenView::Start {
                name: name@,
                namespaces: namespaces.deep_view(),
                attributes: attributes.deep_view(),
            },
            XmlToken::Text(text) => XmlTokenView::Text(text@),
            XmlToken::End => XmlTokenView::End,
        }
    }
}

impl DeepView for XmlToken {
    type V = XmlTokenView;

    open spec fn deep_view(&self) -> XmlTokenView {
        self@
    }
}

/// The tokens that a serializer has accepted since it was made.
pub uninterp spec fn accepted_tokens(writer: xml::writer::EventWriter<Vec<u8>>) -> Seq<
    XmlTokenView,
>;

/// The bytes of the indented document that the serializer makes of `tokens`.
pub uninterp spec fn serialized(tokens: Seq<XmlTokenView>) -> Seq<u8>;

/// Whether a serializer that has accepted `before` accepts `token` next.
pub uninterp spec fn token_accepted(before: Seq<XmlTokenView>, token: XmlTokenView) -> bool;

/// Whether the serializer accepts every token of a document in its turn.
pub open spec fn all_accepted(tokens: Seq<XmlTokenView>) -> bool {
    forall|i: int|
        0 <= i < tokens.len() ==> #[trigger] token_accepted(tokens.take(i), tokens[i])
}

/// Calls `xml::writer::EventWriter::new_with_config` on an empty buffer, with
/// the default configuration but for `perform_indent`, which is on. The new
/// serializer has accepted nothing.
#[verifier::external_body]
fn new_serializer() -> (writer: xml::writer::EventWriter<Vec<u8>>)
    ensures
        accepted_tokens(writer) == Seq::<XmlTokenView>::empty(),
{
    xml::writer::EventWriter::new_with_config(
        Vec::new(),
        xml::writer::EmitterConfig::new().perform_indent(true),
    )
}

/// Calls `xml::writer::EventWriter::write` with a start element built by
/// `XmlEvent::start_element`, `ns` and `attr`; `ns` with the empty prefix
/// sets the default namespace, as `default_ns` does. Whether the serializer
/// reports success depends on what it has accepted and on the token alone.
/// Where it does, it has accepted the token after those before it; of the
/// serializer after a failure nothing is claimed.
#[verifier::external_body]
fn write_start(
    writer: &mut xml::writer::EventWriter<Vec<u8>>,
    name: &str,
    namespaces: &Vec<(String, String)>,
    attributes: &Vec<(String, String)>,
) -> (r: Result<(), xml::writer::Error>)
    ensures
        r is Ok <==> token_accepted(
            accepted_tokens(*old(writer)),
            XmlTokenView::Start {
                name: name@,
                namespaces: namespaces.deep_view(),
                attributes: attributes.deep_view(),
            },
        ),
        r is Ok ==> accepted_tokens(*final(writer)) == accepted_tokens(*old(writer)).push(
            XmlTokenView::Start {
                name: name@,
                namespaces: namespaces.deep_view(),
                attributes: attributes.deep_view(),
            },
        ),
{
    let mut element = xml::writer::XmlEvent::start_element(name);
    for namespace in namespaces.iter() {
        element = element.ns(namespace.0.as_str(), namespace.1.as_str());
    }
    for attribute in attributes.iter() {
        element = element.attr(attribute.0.as_str(), attribute.1.as_str());
    }
    writer.write(element)
}

/// Calls `xml::writer::EventWriter::write` with `XmlEvent::characters`.
/// Whether the serializer reports success depends on what it has accepted
/// and on the token alone. Where it does, it has accepted the token after
/// those before it; of the serializer after a failure nothing is claimed.
#[verifier::external_body]
fn write_text(writer: &mut xml::writer::EventWriter<Vec<u8>>, text: &str) -> (r: Result<
    (),
    xml::writer::Error,
>)
    ensures
        r is Ok <==> token_accepted(accepted_tokens(*old(writer)), XmlTokenView::Text(text@)),
        r is Ok ==> accepted_tokens(*final(writer)) == accepted_tokens(*old(writer)).push(
            XmlTokenView::Text(text@),
        ),
{
    writer.write(xml::writer::XmlEvent::characters(text))
}

/// Calls `xml::writer::EventWriter::write` with `XmlEvent::end_element`.
/// Whether the serializer reports success depends on what it has accepted
/// and on the token alone. Where it does, it has accepted the token after
/// those before it; of the serializer after a failure nothing is claimed.
#[verifier::external_body]
fn write_end(writer: &mut xml::writer::EventWriter<Vec<u8>>) -> (r: Result<
    (),
    xml::writer::Error,
>)
    ensures
        r is Ok <==> token_accepted(accepted_tokens(*old(writer)), XmlTokenView::End),
        r is Ok ==> accepted_tokens(*final(writer)) == accepted_tokens(*old(writer)).push(
            XmlTokenView::End,
        ),
{
    writer.write(xml::writer::XmlEvent::end_element())
}

/// Calls `xml::writer::EventWriter::into_inner`, which hands out the buffer:
/// the serialization of the tokens accepted.
#[verifier::external_body]
fn serializer_output(writer: xml::writer::EventWriter<Vec<u8>>) -> (bytes: Vec<u8>)
    ensures
        bytes@ == serialized(accepted_tokens(writer)),
{
    writer.into_inner()
}

/// Serializes a document. It succeeds exactly when the serializer accepts
/// every token in its turn, and the result is then the serialization of
/// these tokens; otherwise the result is the failure on the first token
/// that the serializer does not accept. A document without tokens is always
/// serialized.
pub fn render(tokens: &Vec<XmlToken>) -> (r: Result<Vec<u8>, xml::writer::Error>)
    ensures
        match r {
            Ok(bytes) => all_accepted(tokens.deep_view()) && bytes@ == serialized(
                tokens.deep_view(),
            ),
            Err(_) => !all_accepted(tokens.deep_view()),
        },
{
    let ghost all = tokens.deep_view();
    let mut writer = new_serializer();
    let mut i: usize = 0;
    while i < tokens.len()
        invariant
            i <= tokens.len(),
            all == tokens.deep_view(),
            accepted_tokens(writer) == all.take(i as int),
            forall|j: int| 0 <= j < i ==> #[trigger] token_accepted(all.take(j), all[j]),
        decreases tokens.len() - i,
    {
        let step = match &tokens[i] {
            XmlToken::Start { name, namespaces, attributes } => write_start(
                &mut writer,
                name.as_str(),
                namespaces,
                attributes,
            ),
            XmlToken::Text(text) => write_text(&mut writer, text.as_str()),
            XmlToken::End => write_end(&mut writer),
        };
        assert(step is Ok <==> token_accepted(all.take(i as int), all[i as int]));
        match step {
            Ok(()) => {},
            Err(e) => {
                return Err(e);
            },
        }
        assert(all.take(i + 1) =~= all.take(i as int).push(tokens@[i as int]@));
        i = i + 1;
    }
    assert(all.take(i as int) =~= all);
    Ok(serializer_output(writer))
}

/// No attributes, and no namespaces.
pub open spec fn no_pairs() -> Seq<(Seq<char>, Seq<char>)> {
    Seq::empty()
}

/// The tokens of an element with no namespaces of its own: its start, its
/// text if it has any, and its end.
pub open spec fn element(
    name: Seq<char>,
    content: Option<Seq<char>>,
    attributes: Seq<(Seq<char>, Seq<char>)>,
) -> Seq<XmlTokenView> {
    let start = XmlTokenView::Start { name, namespaces: no_pairs(), attributes };
    match content {
        Some(text) => seq![start, XmlTokenView::Text(text), XmlTokenView::End],
        None => seq![start, XmlTokenView::End],
    }
}

/// The text that an optional string slice holds.
pub open spec fn content_view(content: Option<&str>) -> Option<Seq<char>> {
    match content {
        Some(text) => Some(text@),
        None => None,
    }
}

/// Sequence views of lists distribute over appending one item.
pub proof fn lemma_deep_view_push<T: DeepView>(list: Seq<T>, item: T)
    ensures
        Seq::new(list.push(item).len(), |i: int| list.push(item)[i].deep_view()) == Seq::new(
            list.len(),
            |i: int| list[i].deep_view(),
        ).push(item.deep_view()),
{
    assert(Seq::new(list.push(item).len(), |i: int| list.push(item)[i].deep_view()) =~= Seq::new(
        list.len(),
        |i: int| list[i].deep_view(),
    ).push(item.deep_view()));
}

/// Adds a name with its value to a list of attributes or namespaces.
pub fn push_pair(pairs: &mut Vec<(String, String)>, name: &str, value: &str)
    ensures
        final(pairs).deep_view() == old(pairs).deep_view().push((name@, value@)),
{
    let pair = (String::from_str(name), String::from_str(value));
    proof {
        lemma_deep_view_push(pairs@, pair);
    }
    pairs.push(pair);
}

/// An empty list of attributes or namespaces.
pub fn no_pairs_list() -> (pairs: Vec<(String, String)>)
    ensures
        pairs.deep_view() == no_pairs(),
{
    let pairs: Vec<(String, String)> = Vec::new();
    assert(pairs.deep_view() =~= no_pairs());
    pairs
}

/// A list of one attribute or namespace.
pub fn one_pair(name: &str, value: &str) -> (pairs: Vec<(String, String)>)
    ensures
        pairs.deep_view() == seq![(name@, value@)],
{
    let mut pairs = no_pairs_list();
    push_pair(&mut pairs, name, value);
    assert(pairs.deep_view() =~= seq![(name@, value@)]);
    pairs
}

/// Adds a token to a document.
pub fn push_token(tokens: &mut Vec<XmlToken>, token: XmlToken)
    ensures
        final(tokens).deep_view() == old(tokens).deep_view().push(token@),
{
    proof {
        lemma_deep_view_push(tokens@, token);
    }
    tokens.push(token);
}

/// Adds the start of an element.
pub fn push_start(
    tokens: &mut Vec<XmlToken>,
    name: &str,
    namespaces: Vec<(String, String)>,
    attributes: Vec<(String, String)>,
)
    ensures
        final(tokens).deep_view() == old(tokens).deep_view().push(
            XmlTokenView::Start {
                name: name@,
                namespaces: namespaces.deep_view(),
                attributes: attributes.deep_view(),
            },
        ),
{
    push_token(tokens, XmlToken::Start { name: String::from_str(name), namespaces, attributes });
}

/// Adds character data.
pub fn push_text(tokens: &mut Vec<XmlToken>, text: &str)
    ensures
        final(tokens).deep_view() == old(tokens).deep_view().push(XmlTokenView::Text(text@)),
{
    push_token(tokens, XmlToken::Text(String::from_str(text)));
}

/// Adds the end of the element that is open.
pub fn push_end(tokens: &mut Vec<XmlToken>)
    ensures
        final(tokens).deep_view() == old(tokens).deep_view().push(XmlTokenView::End),
{
    push_token(tokens, XmlToken::End);
}

/// Adds a whole element: its start, its text if it has any, and its end.
pub fn push_element(
    tokens: &mut Vec<XmlToken>,
    name: &str,
    content: Option<&str>,
    attributes: Vec<(String, String)>,
)
    ensures
        final(tokens).deep_view() == old(tokens).deep_view() + element(
            name@,
            content_view(content),
            attributes.deep_view(),
        ),
{
    let ghost before = tokens.deep_view();
    let ghost attribute_views = attributes.deep_view();
    push_start(tokens, name, no_pairs_list(), attributes);
    match content {
        Some(text) => {
            push_text(tokens, text);
        },
        None => {},
    }
    push_end(tokens);
    assert(tokens.deep_view() =~= before + element(name@, content_view(content), attribute_views));
}

/// Moves the tokens of `part` to the end of a document.
pub fn push_all(tokens: &mut Vec<XmlToken>, part: Vec<XmlToken>)
    ensures
        final(tokens).deep_view() == old(tokens).deep_view() + part.deep_view(),
{
    let ghost before = tokens.deep_view();
    let mut part = part;
    let ghost added = part.deep_view();
    tokens.append(&mut part);
    assert(tokens.deep_view() =~= before + added);
}

} // verus!
