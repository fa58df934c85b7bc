//! An owned XML element tree, produced by the uppsala parser, and the
//! character-level escaping used when writing XML fragments.

use vstd::prelude::*;
use crate::text::{str_eq, to_owned_string};

verus! {

/// An attribute of a parsed element.
pub struct XmlAttribute {
    /// The attribute's namespace URI, if it is namespace-qualified.
    pub namespace: Option<String>,
    /// The attribute's local name.
    pub local_name: String,
    /// The normalized attribute value.
    pub value: String,
}

/// A parsed element with its resolved name, attributes and children.
pub struct XmlElement {
    /// The element's namespace URI, if any.
    pub namespace: Option<String>,
    /// The prefix written in the document, if any.
    pub prefix: Option<String>,
    /// The element's local name.
    pub local_name: String,
    /// The element's attributes, in document order.
    pub attributes: Vec<XmlAttribute>,
    /// The element's child nodes, in document order.
    pub children: Vec<XmlNode>,
    /// The byte offset in the parsed input just past the element's end tag,
    /// where the parser recorded one.
    pub source_end: Option<usize>,
    /// The element and its subtree as the parser serializes them, when the
    /// document was parsed with markup.
    pub markup: Option<String>,
}

/// A child node of an element.
pub enum XmlNode {
    /// A nested element.
    Element(XmlElement),
    /// Character data (a text node or a CDATA section).
    Text(String),
    /// A comment or processing instruction.
    Other,
}

/// The uppsala document type, carried opaquely through the tree conversion.
#[verifier::external_type_specification]
#[verifier::external_body]
pub struct ExDocument<'a>(uppsala::Document<'a>);

/// The uppsala element type.
#[verifier::external_type_specification]
#[verifier::external_body]
pub struct ExElement<'a>(uppsala::Element<'a>);

/// The uppsala node handle type.
#[verifier::external_type_specification]
#[verifier::external_body]
pub struct ExNodeId(uppsala::NodeId);

/// The document element of `input` as parsed by `uppsala::parse`, or `None`
/// when the input is not well-formed XML or has no document element.
pub uninterp spec fn parsed_document_element(input: Seq<char>) -> Option<XmlElement>;

/// Parses `input` with `uppsala::parse` and returns its document element as an
/// owned tree. The contract names the result as a function of the input alone;
/// nothing is stated of which inputs the parser accepts.
#[verifier::external_body]
pub(crate) fn parse_xml(input: &str) -> (r: Option<XmlElement>)
    ensures
        r == parsed_document_element(input@),
{
    let doc = uppsala::parse(input).ok()?;
    let root = doc.document_element()?;
    match convert_node(&doc, root) {
        XmlNode::Element(e) => Some(e),
        _ => None,
    }
}

/// The message `uppsala::parse` reports for `input` when it rejects it, or
/// `None` when it accepts it.
pub uninterp spec fn xml_parse_error_message(input: Seq<char>) -> Option<Seq<char>>;

/// The error message of `uppsala::parse` on `input` (its `Display` text), or
/// `None` when the input parses; the result is named.
#[verifier::external_body]
pub(crate) fn xml_parse_error(input: &str) -> (r: Option<String>)
    ensures
        match r {
            Some(m) => xml_parse_error_message(input@) == Some(m@),
            None => xml_parse_error_message(input@) is None,
        },
{
    uppsala::parse(input).err().map(|e| e.to_string())
}

/// Converts one uppsala node (and its subtree) into an owned `XmlNode`,
/// one variant for one node kind.
#[verifier::external_body]
fn convert_node(doc: &uppsala::Document<'_>, id: uppsala::NodeId) -> XmlNode {
    match doc.node_kind(id) {
        Some(uppsala::NodeKind::Element(e)) => XmlNode::Element(convert_element(doc, id, e)),
        Some(uppsala::NodeKind::Text(t)) => XmlNode::Text(t.to_string()),
        Some(uppsala::NodeKind::CData(t)) => XmlNode::Text(t.to_string()),
        _ => XmlNode::Other,
    }
}

/// Converts the attributes of an uppsala element, in order.
#[verifier::external_body]
fn convert_attributes(e: &uppsala::Element<'_>) -> Vec<XmlAttribute> {
    e.attributes
        .iter()
        .map(|a| XmlAttribute {
            namespace: a.name.namespace_uri.as_ref().map(|n| n.to_string()),
            local_name: a.name.local_name.to_string(),
            value: a.value.to_string(),
        })
        .collect()
}

/// Converts an uppsala element: its name, its attributes, its children and
/// the end of its source range.
#[verifier::external_body]
fn convert_element(
    doc: &uppsala::Document<'_>,
    id: uppsala::NodeId,
    e: &uppsala::Element<'_>,
) -> XmlElement {
    XmlElement {
        namespace: e.name.namespace_uri.as_ref().map(|n| n.to_string()),
        prefix: e.name.prefix.as_ref().map(|p| p.to_string()),
        local_name: e.name.local_name.to_string(),
        attributes: convert_attributes(e),
        children: doc.children_iter(id).map(|c| convert_node(doc, c)).collect(),
        source_end: doc.node_range(id).map(|r| r.end),
        markup: None,
    }
}

/// The document element of `input` as parsed by `uppsala::parse`, each
/// element carrying its serialization, or `None` when the input is not
/// well-formed XML or has no document element.
pub uninterp spec fn parsed_document_with_markup(input: Seq<char>) -> Option<XmlElement>;

/// Parses `input` with `uppsala::parse` and returns its document element as
/// an owned tree in which every element also carries its serialization by
/// `uppsala::Document::node_to_xml`. The result is named as a function of the
/// input alone.
#[verifier::external_body]
pub(crate) fn parse_xml_with_markup(input: &str) -> (r: Option<XmlElement>)
    ensures
        r == parsed_document_with_markup(input@),
{
    let doc = uppsala::parse(input).ok()?;
    let root = doc.document_element()?;
    match convert_node_with_markup(&doc, root) {
        XmlNode::Element(e) => Some(e),
        _ => None,
    }
}

/// Converts one uppsala node and its subtree, elements with their markup.
#[verifier::external_body]
fn convert_node_with_markup(doc: &uppsala::Document<'_>, id: uppsala::NodeId) -> XmlNode {
    match doc.node_kind(id) {
        Some(uppsala::NodeKind::Element(e)) => XmlNode::Element(convert_element_with_markup(doc, id, e)),
        Some(uppsala::NodeKind::Text(t)) => XmlNode::Text(t.to_string()),
        Some(uppsala::NodeKind::CData(t)) => XmlNode::Text(t.to_string()),
        _ => XmlNode::Other,
    }
}

/// Converts an uppsala element as `convert_element` does, adding its
/// serialization by `node_to_xml`.
#[verifier::external_body]
fn convert_element_with_markup(
    doc: &uppsala::Document<'_>,
    id: uppsala::NodeId,
    e: &uppsala::Element<'_>,
) -> XmlElement {
    XmlElement {
        namespace: e.name.namespace_uri.as_ref().map(|n| n.to_string()),
        prefix: e.name.prefix.as_ref().map(|p| p.to_string()),
        local_name: e.name.local_name.to_string(),
        attributes: convert_attributes(e),
        children: doc.children_iter(id).map(|c| convert_node_with_markup(doc, c)).collect(),
        source_end: doc.node_range(id).map(|r| r.end),
        markup: Some(doc.node_to_xml(id)),
    }
}

/// The concatenated character data of a node and all its descendants, in
/// document order.
pub open spec fn node_deep_text(n: XmlNode) -> Seq<char>
    decreases n,
{
    match n {
        XmlNode::Element(e) => children_deep_text(e.children@),
        XmlNode::Text(t) => t@,
        XmlNode::Other => Seq::empty(),
    }
}

/// The concatenated character data of a sequence of sibling nodes.
pub open spec fn children_deep_text(cs: Seq<XmlNode>) -> Seq<char>
    decreases cs,
{
    if cs.len() == 0 {
        Seq::empty()
    } else {
        children_deep_text(cs.drop_last()) + node_deep_text(cs.last())
    }
}

/// The value of the first attribute whose local name is `name`.
pub open spec fn attribute_value(attrs: Seq<XmlAttribute>, name: Seq<char>) -> Option<Seq<char>>
    decreases attrs.len(),
{
    if attrs.len() == 0 {
        None
    } else if attrs[0].local_name@ == name {
        Some(attrs[0].value@)
    } else {
        attribute_value(attrs.drop_first(), name)
    }
}

/// The value of the first attribute of `e` whose local name is `name`
/// (the namespace is ignored).
pub fn get_attribute(e: &XmlElement, name: &str) -> (r: Option<String>)
    ensures
        match r {
            Some(v) => attribute_value(e.attributes@, name@) == Some(v@),
            None => attribute_value(e.attributes@, name@) is None,
        },
{
    let mut i: usize = 0;
    assert(e.attributes@.subrange(0, e.attributes.len() as int) =~= e.attributes@);
    while i < e.attributes.len()
        invariant
            i <= e.attributes.len(),
            attribute_value(e.attributes@, name@) == attribute_value(e.attributes@.subrange(i as int, e.attributes.len() as int), name@),
        decreases e.attributes.len() - i,
    {
        let ghost rest = e.attributes@.subrange(i as int, e.attributes.len() as int);
        assert(rest.drop_first() =~= e.attributes@.subrange(i + 1, e.attributes.len() as int));
        if str_eq(e.attributes[i].local_name.as_str(), name) {
            return Some(to_owned_string(e.attributes[i].value.as_str()));
        }
        i = i + 1;
    }
    None
}

/// The value of the first attribute in namespace `ns` with local name `name`.
pub open spec fn attribute_value_ns(attrs: Seq<XmlAttribute>, ns: Seq<char>, name: Seq<char>) -> Option<Seq<char>>
    decreases attrs.len(),
{
    if attrs.len() == 0 {
        None
    } else if attrs[0].local_name@ == name && namespace_is(attrs[0].namespace, ns) {
        Some(attrs[0].value@)
    } else {
        attribute_value_ns(attrs.drop_first(), ns, name)
    }
}

/// The value of the first attribute of `e` in namespace `ns` with local name
/// `name`.
pub fn get_attribute_ns(e: &XmlElement, ns: &str, name: &str) -> (r: Option<String>)
    ensures
        match r {
            Some(v) => attribute_value_ns(e.attributes@, ns@, name@) == Some(v@),
            None => attribute_value_ns(e.attributes@, ns@, name@) is None,
        },
{
    let mut i: usize = 0;
    assert(e.attributes@.subrange(0, e.attributes.len() as int) =~= e.attributes@);
    while i < e.attributes.len()
        invariant
            i <= e.attributes.len(),
            attribute_value_ns(e.attributes@, ns@, name@) == attribute_value_ns(
                e.attributes@.subrange(i as int, e.attributes.len() as int),
                ns@,
                name@,
            ),
        decreases e.attributes.len() - i,
    {
        let ghost rest = e.attributes@.subrange(i as int, e.attributes.len() as int);
        assert(rest.drop_first() =~= e.attributes@.subrange(i + 1, e.attributes.len() as int));
        let a = &e.attributes[i];
        let in_ns = match &a.namespace {
            Some(n) => str_eq(n.as_str(), ns),
            None => false,
        };
        if in_ns && str_eq(a.local_name.as_str(), name) {
            return Some(to_owned_string(a.value.as_str()));
        }
        i = i + 1;
    }
    None
}

/// Whether an optional namespace is exactly `ns`.
pub open spec fn namespace_is(o: Option<String>, ns: Seq<char>) -> bool {
    match o {
        Some(n) => n@ == ns,
        None => false,
    }
}

/// Whether `e` is the element `{ns}local`.
pub fn element_is(e: &XmlElement, ns: &str, local: &str) -> (r: bool)
    ensures
        r == (namespace_is(e.namespace, ns@) && e.local_name@ == local@),
{
    match &e.namespace {
        Some(n) => str_eq(n.as_str(), ns) && str_eq(e.local_name.as_str(), local),
        None => false,
    }
}

} // verus!
