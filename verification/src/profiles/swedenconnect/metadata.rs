//! Metadata extension builders and readers (section 2).
//!
//! The profile layers these extensions on top of SAML 2.0 metadata:
//!
//! - `<mdattr:EntityAttributes>` carrying entity categories and an
//!   assurance-certification attribute (sections 2.1.2, 2.1.3, 2.1.4),
//! - `<mdui:UIInfo>` display information (section 2.1.1.1),
//! - `<shibmd:Scope>` authorised scopes for IdPs (section 2.1.3.1),
//! - `<idpdisc:DiscoveryResponse>` for SPs using a central discovery service
//!   (section 2.1.2).
//!
//! Builders return namespace-qualified element fragments; combine them with
//! [`extensions`] to produce an `<md:Extensions>` container.

use vstd::prelude::*;
use crate::metadata::types::extensions::Extensions;
use crate::metadata::types::key_descriptor::collect_deep_text;
use crate::text::{
    decimal_string, decimal_string_u64, decimal_text, push_str, str_eq, string_of, strings_view,
    strs_view, to_owned_string, trim, trim_chars,
};
use crate::xml::{attribute_value, namespace_is, node_deep_text, parse_xml, parsed_document_element, XmlElement, XmlNode};
use crate::markup::{empty_tag, end_tag, escaped_text, pairs_view, start_tag, text_element, MarkupWriter};
use super::constants;

verus! {

/// A logotype reference for `<mdui:Logo>` (section 2.1.1.1).
#[derive(Debug, Clone, PartialEq, Eq)]
pub struct Logo {
    /// The logo URL (may be a `data:` URI for in-line images).
    pub url: String,
    /// Logo height in pixels.
    pub height: u32,
    /// Logo width in pixels.
    pub width: u32,
    /// Optional `xml:lang`.
    pub lang: Option<String>,
}

/// `<mdui:UIInfo>` display information for an SP or IdP role descriptor.
#[derive(Debug, Clone, PartialEq, Eq, Default)]
pub struct UiInfo {
    /// `<mdui:DisplayName>` entries as `(lang, value)`. At least one with
    /// `lang = "sv"` is required by section 2.1.1.1.
    pub display_names: Vec<(String, String)>,
    /// `<mdui:Description>` entries as `(lang, value)`.
    pub descriptions: Vec<(String, String)>,
    /// `<mdui:Logo>` entries (at least one is required).
    pub logos: Vec<Logo>,
}

/// `<elem xml:lang="lang">value</elem>` for each entry, in order.
pub open spec fn localized_xml(elem: Seq<char>, entries: Seq<(String, String)>) -> Seq<char>
    decreases entries.len(),
{
    if entries.len() == 0 {
        Seq::empty()
    } else {
        localized_xml(elem, entries.drop_last()) + start_tag(elem, seq![("xml:lang"@, entries.last().0@)])
            + escaped_text(entries.last().1@) + end_tag(elem)
    }
}

/// The attributes of `<mdui:Logo>`: height, width and the language if any.
pub open spec fn logo_attrs(l: Logo) -> Seq<(Seq<char>, Seq<char>)> {
    seq![("height"@, decimal_text(l.height as nat)), ("width"@, decimal_text(l.width as nat))] + match l.lang {
        Some(lang) => seq![("xml:lang"@, lang@)],
        None => Seq::empty(),
    }
}

/// The `<mdui:Logo>` elements, in order.
pub open spec fn logos_xml(logos: Seq<Logo>) -> Seq<char>
    decreases logos.len(),
{
    if logos.len() == 0 {
        Seq::empty()
    } else {
        logos_xml(logos.drop_last()) + start_tag("mdui:Logo"@, logo_attrs(logos.last())) + escaped_text(
            logos.last().url@,
        ) + end_tag("mdui:Logo"@)
    }
}

/// The serialized `<mdui:UIInfo>`: display names, then descriptions, then
/// logos.
pub open spec fn ui_info_xml(ui: UiInfo) -> Seq<char> {
    start_tag("mdui:UIInfo"@, seq![("xmlns:mdui"@, constants::NS_MDUI@)]) + localized_xml(
        "mdui:DisplayName"@,
        ui.display_names@,
    ) + localized_xml("mdui:Description"@, ui.descriptions@) + logos_xml(ui.logos@) + end_tag("mdui:UIInfo"@)
}

/// Appends the localized elements of `entries` to `w`.
fn push_localized(w: &mut MarkupWriter, elem: &str, entries: &Vec<(String, String)>)
    ensures
        final(w)@ == old(w)@ + localized_xml(elem@, entries@),
{
    let ghost start = w@;
    let mut i: usize = 0;
    while i < entries.len()
        invariant
            i <= entries.len(),
            w@ == start + localized_xml(elem@, entries@.subrange(0, i as int)),
        decreases entries.len() - i,
    {
        let (lang, value) = &entries[i];
        let attrs: [(&str, &str); 1] = [("xml:lang", lang.as_str())];
        assert(pairs_view(attrs@) =~= seq![("xml:lang"@, lang@)]);
        w.start_element(elem, &attrs);
        w.text(value.as_str());
        w.end_element(elem);
        assert(entries@.subrange(0, i + 1).drop_last() =~= entries@.subrange(0, i as int));
        i = i + 1;
    }
    assert(entries@.subrange(0, i as int) =~= entries@);
}

impl UiInfo {
    /// Serialize the `<mdui:UIInfo>` element (namespace-qualified).
    pub fn to_xml_string(&self) -> (r: String)
        ensures
            r@ == ui_info_xml(*self),
    {
        let mut w = MarkupWriter::new();
        let ns: [(&str, &str); 1] = [("xmlns:mdui", constants::NS_MDUI)];
        assert(pairs_view(ns@) =~= seq![("xmlns:mdui"@, constants::NS_MDUI@)]);
        w.start_element("mdui:UIInfo", &ns);
        push_localized(&mut w, "mdui:DisplayName", &self.display_names);
        push_localized(&mut w, "mdui:Description", &self.descriptions);
        let ghost before_logos = w@;
        let mut i: usize = 0;
        while i < self.logos.len()
            invariant
                i <= self.logos.len(),
                w@ == before_logos + logos_xml(self.logos@.subrange(0, i as int)),
            decreases self.logos.len() - i,
        {
            let logo = &self.logos[i];
            let h = decimal_string_u64(logo.height as u64);
            let wd = decimal_string_u64(logo.width as u64);
            let mut attrs: Vec<(&str, &str)> = Vec::new();
            attrs.push(("height", h.as_str()));
            attrs.push(("width", wd.as_str()));
            if let Some(lang) = &logo.lang {
                attrs.push(("xml:lang", lang.as_str()));
            }
            assert(pairs_view(attrs@) =~= logo_attrs(*logo));
            w.start_element("mdui:Logo", attrs.as_slice());
            w.text(logo.url.as_str());
            w.end_element("mdui:Logo");
            assert(self.logos@.subrange(0, i + 1).drop_last() =~= self.logos@.subrange(0, i as int));
            i = i + 1;
        }
        assert(self.logos@.subrange(0, i as int) =~= self.logos@);
        w.end_element("mdui:UIInfo");
        let r = w.into_string();
        assert(r@ =~= ui_info_xml(*self));
        r
    }
}

/// `<saml2:AttributeValue>` elements for each value, in order.
pub open spec fn attribute_values_xml(values: Seq<Seq<char>>) -> Seq<char>
    decreases values.len(),
{
    if values.len() == 0 {
        Seq::empty()
    } else {
        attribute_values_xml(values.drop_last()) + text_element("saml2:AttributeValue"@, values.last())
    }
}

/// A URI-format `<saml2:Attribute>` with the given name and values.
pub open spec fn uri_attribute_xml(name: Seq<char>, values: Seq<Seq<char>>) -> Seq<char> {
    start_tag("saml2:Attribute"@, seq![("Name"@, name), ("NameFormat"@, constants::ATTRNAME_FORMAT_URI@)])
        + attribute_values_xml(values) + end_tag("saml2:Attribute"@)
}

/// The serialized `<mdattr:EntityAttributes>`: the entity-category attribute
/// when there are categories, then the assurance-certification attribute
/// when there are certifications.
pub open spec fn entity_attributes_text(cats: Seq<Seq<char>>, certs: Seq<Seq<char>>) -> Seq<char> {
    start_tag(
        "mdattr:EntityAttributes"@,
        seq![("xmlns:mdattr"@, constants::NS_MDATTR@), ("xmlns:saml2"@, constants::NS_SAML_ASSERTION@)],
    ) + (if cats.len() > 0 {
        uri_attribute_xml(constants::ENTITY_CATEGORY_ATTR@, cats)
    } else {
        Seq::empty()
    }) + (if certs.len() > 0 {
        uri_attribute_xml(constants::ASSURANCE_CERTIFICATION_ATTR@, certs)
    } else {
        Seq::empty()
    }) + end_tag("mdattr:EntityAttributes"@)
}

/// Appends a URI-format `<saml2:Attribute>` to `w`.
fn push_uri_attribute(w: &mut MarkupWriter, name: &str, values: &[&str])
    ensures
        final(w)@ == old(w)@ + uri_attribute_xml(name@, strs_view(values@)),
{
    let ghost start = w@;
    let attrs: [(&str, &str); 2] = [("Name", name), ("NameFormat", constants::ATTRNAME_FORMAT_URI)];
    assert(pairs_view(attrs@) =~= seq![("Name"@, name@), ("NameFormat"@, constants::ATTRNAME_FORMAT_URI@)]);
    w.start_element("saml2:Attribute", &attrs);
    let ghost head = w@;
    let mut i: usize = 0;
    while i < values.len()
        invariant
            i <= values.len(),
            w@ == head + attribute_values_xml(strs_view(values@).subrange(0, i as int)),
        decreases values.len() - i,
    {
        w.text_element("saml2:AttributeValue", values[i]);
        assert(strs_view(values@).subrange(0, i + 1).drop_last() =~= strs_view(values@).subrange(0, i as int));
        i = i + 1;
    }
    assert(strs_view(values@).subrange(0, i as int) =~= strs_view(values@));
    w.end_element("saml2:Attribute");
    assert(w@ =~= start + uri_attribute_xml(name@, strs_view(values@)));
}

/// Build an `<mdattr:EntityAttributes>` fragment declaring the given entity
/// categories and assurance-certification values (the latter typically only
/// on IdPs; each attribute is emitted only when it has values).
pub fn entity_attributes_xml(entity_categories: &[&str], assurance_certifications: &[&str]) -> (r: String)
    ensures
        r@ == entity_attributes_text(strs_view(entity_categories@), strs_view(assurance_certifications@)),
{
    let mut w = MarkupWriter::new();
    let ns: [(&str, &str); 2] = [("xmlns:mdattr", constants::NS_MDATTR), ("xmlns:saml2", constants::NS_SAML_ASSERTION)];
    assert(pairs_view(ns@) =~= seq![("xmlns:mdattr"@, constants::NS_MDATTR@), ("xmlns:saml2"@, constants::NS_SAML_ASSERTION@)]);
    w.start_element("mdattr:EntityAttributes", &ns);
    if entity_categories.len() > 0 {
        push_uri_attribute(&mut w, constants::ENTITY_CATEGORY_ATTR, entity_categories);
    }
    if assurance_certifications.len() > 0 {
        push_uri_attribute(&mut w, constants::ASSURANCE_CERTIFICATION_ATTR, assurance_certifications);
    }
    w.end_element("mdattr:EntityAttributes");
    let r = w.into_string();
    assert(r@ =~= entity_attributes_text(strs_view(entity_categories@), strs_view(assurance_certifications@)));
    r
}

/// The serialized `<shibmd:Scope>`.
pub open spec fn scope_text(value: Seq<char>, regexp: bool) -> Seq<char> {
    start_tag(
        "shibmd:Scope"@,
        seq![("xmlns:shibmd"@, constants::NS_SHIBMD@), ("regexp"@, if regexp { "true"@ } else { "false"@ })],
    ) + escaped_text(value) + end_tag("shibmd:Scope"@)
}

/// Build a `<shibmd:Scope>` fragment (section 2.1.3.1).
pub fn scope_xml(value: &str, regexp: bool) -> (r: String)
    ensures
        r@ == scope_text(value@, regexp),
{
    let mut w = MarkupWriter::new();
    let flag = if regexp {
        "true"
    } else {
        "false"
    };
    let attrs: [(&str, &str); 2] = [("xmlns:shibmd", constants::NS_SHIBMD), ("regexp", flag)];
    assert(pairs_view(attrs@) =~= seq![("xmlns:shibmd"@, constants::NS_SHIBMD@), ("regexp"@, if regexp { "true"@ } else { "false"@ })]);
    w.start_element("shibmd:Scope", &attrs);
    w.text(value);
    w.end_element("shibmd:Scope");
    let r = w.into_string();
    assert(r@ =~= scope_text(value@, regexp));
    r
}

/// The serialized `<idpdisc:DiscoveryResponse/>`.
pub open spec fn discovery_response_text(index: u16, location: Seq<char>) -> Seq<char> {
    empty_tag(
        "idpdisc:DiscoveryResponse"@,
        seq![
            ("xmlns:idpdisc"@, constants::NS_IDPDISCO@),
            ("Binding"@, constants::NS_IDPDISCO@),
            ("index"@, decimal_text(index as nat)),
            ("Location"@, location),
        ],
    )
}

/// Build an `<idpdisc:DiscoveryResponse>` fragment (section 2.1.2); its
/// binding is the discovery protocol itself.
pub fn discovery_response_xml(index: u16, location: &str) -> (r: String)
    ensures
        r@ == discovery_response_text(index, location@),
{
    let mut w = MarkupWriter::new();
    let idx = decimal_string(index as usize);
    let attrs: [(&str, &str); 4] = [
        ("xmlns:idpdisc", constants::NS_IDPDISCO),
        ("Binding", constants::NS_IDPDISCO),
        ("index", idx.as_str()),
        ("Location", location),
    ];
    assert(pairs_view(attrs@) =~= seq![
        ("xmlns:idpdisc"@, constants::NS_IDPDISCO@),
        ("Binding"@, constants::NS_IDPDISCO@),
        ("index"@, decimal_text(index as nat)),
        ("Location"@, location@),
    ]);
    w.empty_element("idpdisc:DiscoveryResponse", &attrs);
    w.into_string()
}

/// The concatenation of the fragments, in order.
pub open spec fn concat_all(fragments: Seq<Seq<char>>) -> Seq<char>
    decreases fragments.len(),
{
    if fragments.len() == 0 {
        Seq::empty()
    } else {
        concat_all(fragments.drop_last()) + fragments.last()
    }
}

/// The `<md:Extensions>` container holding the fragments.
pub open spec fn extensions_text(fragments: Seq<Seq<char>>) -> Seq<char> {
    start_tag("md:Extensions"@, seq![("xmlns:md"@, constants::NS_MD@)]) + concat_all(fragments) + end_tag(
        "md:Extensions"@,
    )
}

/// Wrap one or more element fragments in an `<md:Extensions>` container.
pub fn extensions(fragments: &[String]) -> (r: Extensions)
    ensures
        r.raw_xml@ == extensions_text(strings_view(fragments@)),
{
    let mut w = MarkupWriter::new();
    let ns: [(&str, &str); 1] = [("xmlns:md", constants::NS_MD)];
    assert(pairs_view(ns@) =~= seq![("xmlns:md"@, constants::NS_MD@)]);
    w.start_element("md:Extensions", &ns);
    let ghost head = w@;
    let mut i: usize = 0;
    while i < fragments.len()
        invariant
            i <= fragments.len(),
            w@ == head + concat_all(strings_view(fragments@).subrange(0, i as int)),
        decreases fragments.len() - i,
    {
        w.raw(fragments[i].as_str());
        assert(strings_view(fragments@).subrange(0, i + 1).drop_last() =~= strings_view(fragments@).subrange(0, i as int));
        i = i + 1;
    }
    assert(strings_view(fragments@).subrange(0, i as int) =~= strings_view(fragments@));
    w.end_element("md:Extensions");
    let s = w.into_string();
    Extensions::new(s.as_str())
}

// ── Readers ─────────────────────────────────────────────────────────────────

/// The synthetic root the extensions are parsed in, declaring the prefixes
/// the fragments use.
pub const ENTITY_ATTRIBUTES_ROOT_OPEN: &'static str = "<root xmlns:md=\"urn:oasis:names:tc:SAML:2.0:metadata\" xmlns:mdattr=\"urn:oasis:names:tc:SAML:metadata:attribute\" xmlns:saml2=\"urn:oasis:names:tc:SAML:2.0:assertion\" xmlns:saml=\"urn:oasis:names:tc:SAML:2.0:assertion\">";

/// The close of the synthetic root.
pub const ENTITY_ATTRIBUTES_ROOT_CLOSE: &'static str = "</root>";

/// Whether `e` is a `<saml2:Attribute>` whose `Name` is `name`.
pub open spec fn is_named_attribute(e: XmlElement, name: Seq<char>) -> bool {
    &&& e.local_name@ == "Attribute"@
    &&& namespace_is(e.namespace, constants::NS_SAML_ASSERTION@)
    &&& attribute_value(e.attributes@, "Name"@) == Some(name)
}

/// The trimmed, non-empty text of the `AttributeValue` children, in order.
pub open spec fn attribute_value_texts(cs: Seq<XmlNode>) -> Seq<Seq<char>>
    decreases cs.len(),
{
    if cs.len() == 0 {
        Seq::empty()
    } else {
        attribute_value_texts(cs.drop_last()) + match cs.last() {
            XmlNode::Element(v) => if v.local_name@ == "AttributeValue"@ && trim(node_deep_text(cs.last())).len() > 0 {
                seq![trim(node_deep_text(cs.last()))]
            } else {
                Seq::empty()
            },
            _ => Seq::empty(),
        }
    }
}

/// The values of every `<saml2:Attribute Name="name">` at or below `n`, in
/// document order.
pub open spec fn node_attribute_values(n: XmlNode, name: Seq<char>) -> Seq<Seq<char>>
    decreases n,
{
    match n {
        XmlNode::Element(e) => (if is_named_attribute(e, name) {
            attribute_value_texts(e.children@)
        } else {
            Seq::empty()
        }) + children_attribute_values(e.children@, name),
        _ => Seq::empty(),
    }
}

/// The values of the named attributes within a sequence of siblings.
pub open spec fn children_attribute_values(cs: Seq<XmlNode>, name: Seq<char>) -> Seq<Seq<char>>
    decreases cs,
{
    if cs.len() == 0 {
        Seq::empty()
    } else {
        children_attribute_values(cs.drop_last(), name) + node_attribute_values(cs.last(), name)
    }
}

/// The values of the named attribute carried in the raw extensions: those of
/// the document parsed inside the synthetic root, none when it does not
/// parse.
pub open spec fn extension_attribute_values(raw_xml: Seq<char>, name: Seq<char>) -> Seq<Seq<char>> {
    match parsed_document_element(ENTITY_ATTRIBUTES_ROOT_OPEN@ + raw_xml + ENTITY_ATTRIBUTES_ROOT_CLOSE@) {
        Some(root) => children_attribute_values(root.children@, name),
        None => Seq::empty(),
    }
}

/// Appends the trimmed text of each non-empty `AttributeValue` child.
fn collect_value_texts(e: &XmlElement, out: &mut Vec<String>)
    ensures
        strings_view(final(out)@) == strings_view(old(out)@) + attribute_value_texts(e.children@),
{
    let ghost start = strings_view(out@);
    let mut i: usize = 0;
    while i < e.children.len()
        invariant
            i <= e.children.len(),
            strings_view(out@) == start + attribute_value_texts(e.children@.subrange(0, i as int)),
        decreases e.children.len() - i,
    {
        let ghost before = out@;
        let child = &e.children[i];
        assert(e.children@.subrange(0, i + 1).drop_last() =~= e.children@.subrange(0, i as int));
        assert(e.children@.subrange(0, i + 1).last() == *child);
        match child {
            XmlNode::Element(v) => {
                if str_eq(v.local_name.as_str(), "AttributeValue") {
                    let mut text: Vec<char> = Vec::new();
                    collect_deep_text(child, &mut text);
                    assert(text@ =~= node_deep_text(*child));
                    let t = trim_chars(text.as_slice());
                    if t.len() > 0 {
                        out.push(string_of(t.as_slice()));
                        assert(strings_view(out@) =~= strings_view(before) + seq![trim(node_deep_text(*child))]);
                    }
                }
            },
            _ => {},
        }
        assert(strings_view(out@) =~= start + attribute_value_texts(e.children@.subrange(0, i + 1)));
        i = i + 1;
    }
    assert(e.children@.subrange(0, i as int) =~= e.children@);
}

/// Whether `e` is `<saml2:Attribute Name="name">`.
fn is_named_attribute_exec(e: &XmlElement, name: &str) -> (r: bool)
    ensures
        r == is_named_attribute(*e, name@),
{
    if !str_eq(e.local_name.as_str(), "Attribute") {
        return false;
    }
    let ns_ok = match &e.namespace {
        Some(n) => str_eq(n.as_str(), constants::NS_SAML_ASSERTION),
        None => false,
    };
    if !ns_ok {
        return false;
    }
    match crate::xml::get_attribute(e, "Name") {
        Some(v) => str_eq(v.as_str(), name),
        None => false,
    }
}

/// Appends the values of the named attributes at or below `n`.
pub fn collect_attribute_values(n: &XmlNode, name: &str, out: &mut Vec<String>)
    ensures
        strings_view(final(out)@) == strings_view(old(out)@) + node_attribute_values(*n, name@),
    decreases n,
{
    match n {
        XmlNode::Element(e) => {
            let ghost start = strings_view(out@);
            if is_named_attribute_exec(e, name) {
                collect_value_texts(e, out);
            }
            let ghost mid = strings_view(out@);
            assert(mid == start + if is_named_attribute(*e, name@) {
                attribute_value_texts(e.children@)
            } else {
                Seq::<Seq<char>>::empty()
            });
            let mut i: usize = 0;
            while i < e.children.len()
                invariant
                    *n == XmlNode::Element(*e),
                    i <= e.children.len(),
                    strings_view(out@) == mid + children_attribute_values(e.children@.subrange(0, i as int), name@),
                decreases e.children.len() - i,
            {
                assert(e.children@.subrange(0, i + 1).drop_last() =~= e.children@.subrange(0, i as int));
                proof {
                    assert(decreases_to!(*n => (*n)->Element_0));
                    assert((*n)->Element_0 == *e);
                    assert(decreases_to!(*e => e.children));
                    assert(decreases_to!(e.children => e.children@));
                    assert(decreases_to!(e.children@ => e.children@[i as int]));
                }
                collect_attribute_values(&e.children[i], name, out);
                assert(strings_view(out@) =~= mid + children_attribute_values(e.children@.subrange(0, i + 1), name@));
                i = i + 1;
            }
            assert(e.children@.subrange(0, i as int) =~= e.children@);
            assert(strings_view(out@) =~= start + node_attribute_values(*n, name@));
        },
        _ => {
            assert(strings_view(out@) =~= strings_view(out@) + Seq::<Seq<char>>::empty());
        },
    }
}

/// Extract all values of the named `<saml2:Attribute>` from an
/// `<mdattr:EntityAttributes>` carried in the given metadata extensions:
/// trimmed, non-empty, in document order. Extensions that cannot be parsed
/// give no values.
pub fn entity_attribute_values(ext: &Extensions, attribute_name: &str) -> (r: Vec<String>)
    ensures
        strings_view(r@) == extension_attribute_values(ext.raw_xml@, attribute_name@),
{
    let mut full = to_owned_string(ENTITY_ATTRIBUTES_ROOT_OPEN);
    push_str(&mut full, ext.raw_xml.as_str());
    push_str(&mut full, ENTITY_ATTRIBUTES_ROOT_CLOSE);
    let mut out: Vec<String> = Vec::new();
    match parse_xml(full.as_str()) {
        Some(root) => {
            let mut i: usize = 0;
            while i < root.children.len()
                invariant
                    i <= root.children.len(),
                    strings_view(out@) == children_attribute_values(root.children@.subrange(0, i as int), attribute_name@),
                decreases root.children.len() - i,
            {
                assert(root.children@.subrange(0, i + 1).drop_last() =~= root.children@.subrange(0, i as int));
                collect_attribute_values(&root.children[i], attribute_name, &mut out);
                assert(strings_view(out@) =~= children_attribute_values(root.children@.subrange(0, i + 1), attribute_name@));
                i = i + 1;
            }
            assert(root.children@.subrange(0, i as int) =~= root.children@);
        },
        None => {
            assert(strings_view(out@) =~= Seq::<Seq<char>>::empty());
        },
    }
    out
}

/// The entity categories declared in the given metadata extensions.
pub fn entity_categories(ext: &Extensions) -> (r: Vec<String>)
    ensures
        strings_view(r@) == extension_attribute_values(ext.raw_xml@, constants::ENTITY_CATEGORY_ATTR@),
{
    entity_attribute_values(ext, constants::ENTITY_CATEGORY_ATTR)
}

/// The assurance-certification (Level of Assurance) values declared by an IdP.
pub fn assurance_certifications(ext: &Extensions) -> (r: Vec<String>)
    ensures
        strings_view(r@) == extension_attribute_values(ext.raw_xml@, constants::ASSURANCE_CERTIFICATION_ATTR@),
{
    entity_attribute_values(ext, constants::ASSURANCE_CERTIFICATION_ATTR)
}

/// Whether one of the strings equals `target`.
fn contains_string(v: &Vec<String>, target: &str) -> (r: bool)
    ensures
        r == strings_view(v@).contains(target@),
{
    let mut i: usize = 0;
    while i < v.len()
        invariant
            i <= v.len(),
            forall|k: int| 0 <= k < i ==> v@[k]@ != target@,
        decreases v.len() - i,
    {
        if str_eq(v[i].as_str(), target) {
            assert(strings_view(v@)[i as int] == target@);
            return true;
        }
        i = i + 1;
    }
    assert forall|k: int| 0 <= k < strings_view(v@).len() implies strings_view(v@)[k] != target@ by {
        assert(strings_view(v@)[k] == v@[k]@);
    }
    false
}

/// Whether the entity is a Signature Service (declares the `sigservice` service
/// type entity category, section 2.1.4).
pub fn is_signature_service(ext: &Extensions) -> (r: bool)
    ensures
        r == extension_attribute_values(ext.raw_xml@, constants::ENTITY_CATEGORY_ATTR@).contains(
            constants::ST_SIGSERVICE@,
        ),
{
    let cats = entity_categories(ext);
    contains_string(&cats, constants::ST_SIGSERVICE)
}

/// Whether the IdP advertises SCAL2 / SAP support (section 2.1.3).
pub fn supports_scal2(ext: &Extensions) -> (r: bool)
    ensures
        r == extension_attribute_values(ext.raw_xml@, constants::ENTITY_CATEGORY_ATTR@).contains(
            constants::SPROP_SCAL2@,
        ),
{
    let cats = entity_categories(ext);
    contains_string(&cats, constants::SPROP_SCAL2)
}

} // verus!
