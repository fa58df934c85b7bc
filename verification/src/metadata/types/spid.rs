//! SPID SAML extensions: the typed `ContactPerson[@contactType='other']`
//! extension elements of the namespace `https://spid.gov.it/saml-extensions`.

use vstd::prelude::*;
use super::extensions::Extensions;
use crate::text::{opt_string_view, push_str, seq_contains, str_contains, to_owned_string, string_of};
use crate::xml::{
    children_deep_text, namespace_is, node_deep_text, parse_xml, parsed_document_element, xml_parse_error, xml_parse_error_message,
    XmlElement, XmlNode,
};
use crate::metadata::types::key_descriptor::collect_deep_text;
use crate::markup::pairs_view;
use crate::xml_writer::{empty_element_markup, end_element_markup, start_element_markup, text_markup, XmlBuffer};

verus! {

/// SPID extensions namespace URI.
pub const SPID_EXTENSIONS_NS: &'static str = "https://spid.gov.it/saml-extensions";

/// SPID Service Provider type.
///
/// Determines the profile the SPID validator applies to the SP metadata.
/// These are mutually exclusive — exactly one must be present in the
/// `ContactPerson[@contactType='other']` extensions.
#[derive(Debug, Clone, Copy, PartialEq, Eq, Structural, Hash)]
pub enum SpidSpType {
    /// Public administration SP (`<spid:Public/>`).
    Public,
    /// Private SP (`<spid:Private/>`).
    Private,
    /// Public services full aggregator (`<spid:PublicServicesFullAggregator/>`).
    PublicServicesFullAggregator,
    /// Public services light aggregator (`<spid:PublicServicesLightAggregator/>`).
    PublicServicesLightAggregator,
    /// Private services full aggregator (`<spid:PrivateServicesFullAggregator/>`).
    PrivateServicesFullAggregator,
    /// Private services light aggregator (`<spid:PrivateServicesLightAggregator/>`).
    PrivateServicesLightAggregator,
    /// Public services full operator (`<spid:PublicServicesFullOperator/>`).
    PublicServicesFullOperator,
    /// Public services light operator (`<spid:PublicServicesLightOperator/>`).
    PublicServicesLightOperator,
    /// Public operator (`<spid:PublicOperator/>`).
    PublicOperator,
}

/// The local element name of an SP type marker.
pub open spec fn sp_marker_name(t: SpidSpType) -> Seq<char> {
    match t {
        SpidSpType::Public => "Public"@,
        SpidSpType::Private => "Private"@,
        SpidSpType::PublicServicesFullAggregator => "PublicServicesFullAggregator"@,
        SpidSpType::PublicServicesLightAggregator => "PublicServicesLightAggregator"@,
        SpidSpType::PrivateServicesFullAggregator => "PrivateServicesFullAggregator"@,
        SpidSpType::PrivateServicesLightAggregator => "PrivateServicesLightAggregator"@,
        SpidSpType::PublicServicesFullOperator => "PublicServicesFullOperator"@,
        SpidSpType::PublicServicesLightOperator => "PublicServicesLightOperator"@,
        SpidSpType::PublicOperator => "PublicOperator"@,
    }
}

/// The SP type whose marker element is named `name`, if any.
pub open spec fn sp_type_from_name(name: Seq<char>) -> Option<SpidSpType> {
    if name == "Public"@ {
        Some(SpidSpType::Public)
    } else if name == "Private"@ {
        Some(SpidSpType::Private)
    } else if name == "PublicServicesFullAggregator"@ {
        Some(SpidSpType::PublicServicesFullAggregator)
    } else if name == "PublicServicesLightAggregator"@ {
        Some(SpidSpType::PublicServicesLightAggregator)
    } else if name == "PrivateServicesFullAggregator"@ {
        Some(SpidSpType::PrivateServicesFullAggregator)
    } else if name == "PrivateServicesLightAggregator"@ {
        Some(SpidSpType::PrivateServicesLightAggregator)
    } else if name == "PublicServicesFullOperator"@ {
        Some(SpidSpType::PublicServicesFullOperator)
    } else if name == "PublicServicesLightOperator"@ {
        Some(SpidSpType::PublicServicesLightOperator)
    } else if name == "PublicOperator"@ {
        Some(SpidSpType::PublicOperator)
    } else {
        None
    }
}

impl SpidSpType {
    /// Return the XML local element name (without namespace prefix).
    pub fn element_name(&self) -> (r: &'static str)
        ensures
            r@ == sp_marker_name(*self),
    {
        match self {
            SpidSpType::Public => "Public",
            SpidSpType::Private => "Private",
            SpidSpType::PublicServicesFullAggregator => "PublicServicesFullAggregator",
            SpidSpType::PublicServicesLightAggregator => "PublicServicesLightAggregator",
            SpidSpType::PrivateServicesFullAggregator => "PrivateServicesFullAggregator",
            SpidSpType::PrivateServicesLightAggregator => "PrivateServicesLightAggregator",
            SpidSpType::PublicServicesFullOperator => "PublicServicesFullOperator",
            SpidSpType::PublicServicesLightOperator => "PublicServicesLightOperator",
            SpidSpType::PublicOperator => "PublicOperator",
        }
    }

    /// Parse from an XML local element name.
    pub fn from_element_name(name: &str) -> (r: Option<Self>)
        ensures
            r == sp_type_from_name(name@),
    {
        if crate::text::str_eq(name, "Public") {
            Some(SpidSpType::Public)
        } else if crate::text::str_eq(name, "Private") {
            Some(SpidSpType::Private)
        } else if crate::text::str_eq(name, "PublicServicesFullAggregator") {
            Some(SpidSpType::PublicServicesFullAggregator)
        } else if crate::text::str_eq(name, "PublicServicesLightAggregator") {
            Some(SpidSpType::PublicServicesLightAggregator)
        } else if crate::text::str_eq(name, "PrivateServicesFullAggregator") {
            Some(SpidSpType::PrivateServicesFullAggregator)
        } else if crate::text::str_eq(name, "PrivateServicesLightAggregator") {
            Some(SpidSpType::PrivateServicesLightAggregator)
        } else if crate::text::str_eq(name, "PublicServicesFullOperator") {
            Some(SpidSpType::PublicServicesFullOperator)
        } else if crate::text::str_eq(name, "PublicServicesLightOperator") {
            Some(SpidSpType::PublicServicesLightOperator)
        } else if crate::text::str_eq(name, "PublicOperator") {
            Some(SpidSpType::PublicOperator)
        } else {
            None
        }
    }
}

/// Characters that tell the SP type names apart: the length and the
/// second character.
spec fn sp_type_key(s: Seq<char>) -> (nat, char) {
    (s.len(), s[1])
}

/// Every SP type reads back from its element name, so no two types share a
/// name.
pub proof fn lemma_sp_marker_name_roundtrip(t: SpidSpType)
    ensures
        sp_type_from_name(sp_marker_name(t)) == Some(t),
{
    reveal_strlit("Public");
    reveal_strlit("Private");
    reveal_strlit("PublicServicesFullAggregator");
    reveal_strlit("PublicServicesLightAggregator");
    reveal_strlit("PrivateServicesFullAggregator");
    reveal_strlit("PrivateServicesLightAggregator");
    reveal_strlit("PublicServicesFullOperator");
    reveal_strlit("PublicServicesLightOperator");
    reveal_strlit("PublicOperator");
    assert(sp_type_key(sp_marker_name(t)) == sp_type_key(sp_marker_name(t)));
}

/// SPID-specific extensions for `ContactPerson[@contactType='other']`.
#[derive(Debug, Clone, PartialEq)]
pub struct SpidContactExtensions {
    /// SP type marker (required, exactly one).
    pub sp_type: SpidSpType,
    /// VAT number (e.g., "VATIT-12345678901"). Required for private SPs.
    pub vat_number: Option<String>,
    /// Fiscal code (e.g., "XYZABC80A01H501T").
    pub fiscal_code: Option<String>,
    /// IPA code. Required for public administration SPs.
    pub ipa_code: Option<String>,
    /// Municipality name.
    pub municipality: Option<String>,
    /// Province code (2-letter).
    pub province: Option<String>,
    /// Country code (ISO 3166, e.g., "IT").
    pub country: Option<String>,
}

/// The abstract content of SPID contact extensions.
pub struct SpidView {
    /// The SP type.
    pub sp_type: SpidSpType,
    /// The VAT number.
    pub vat_number: Option<Seq<char>>,
    /// The fiscal code.
    pub fiscal_code: Option<Seq<char>>,
    /// The IPA code.
    pub ipa_code: Option<Seq<char>>,
    /// The municipality.
    pub municipality: Option<Seq<char>>,
    /// The province.
    pub province: Option<Seq<char>>,
    /// The country.
    pub country: Option<Seq<char>>,
}

/// The abstract content of SPID contact extensions.
pub open spec fn spid_view(x: SpidContactExtensions) -> SpidView {
    SpidView {
        sp_type: x.sp_type,
        vat_number: opt_string_view(x.vat_number),
        fiscal_code: opt_string_view(x.fiscal_code),
        ipa_code: opt_string_view(x.ipa_code),
        municipality: opt_string_view(x.municipality),
        province: opt_string_view(x.province),
        country: opt_string_view(x.country),
    }
}

/// The `xmlns:spid` declaration carried by every SPID element.
pub open spec fn spid_ns_attrs() -> Seq<(Seq<char>, Seq<char>)> {
    seq![("xmlns:spid"@, SPID_EXTENSIONS_NS@)]
}

/// `<name xmlns:spid="...">text</name>` when the value is present.
pub open spec fn optional_element(name: Seq<char>, value: Option<Seq<char>>) -> Seq<char> {
    match value {
        Some(v) => start_element_markup(name, spid_ns_attrs()) + text_markup(v) + end_element_markup(name),
        None => Seq::empty(),
    }
}

/// The serialized `<md:Extensions>`: the identity elements (VAT number,
/// fiscal code, IPA code), the location elements (municipality, province,
/// country), each when present, then the empty SP type marker.
pub open spec fn spid_extensions_xml(v: SpidView) -> Seq<char> {
    start_element_markup("md:Extensions"@, Seq::empty()) + optional_element("spid:VATNumber"@, v.vat_number)
        + optional_element("spid:FiscalCode"@, v.fiscal_code) + optional_element("spid:IPACode"@, v.ipa_code)
        + optional_element("spid:Municipality"@, v.municipality) + optional_element("spid:Province"@, v.province)
        + optional_element("spid:Country"@, v.country) + empty_element_markup(
        "spid:"@ + sp_marker_name(v.sp_type),
        spid_ns_attrs(),
    ) + end_element_markup("md:Extensions"@)
}

/// Writes `<name xmlns:spid="...">value</name>` when the value is present.
fn write_optional(w: &mut XmlBuffer, name: &str, value: &Option<String>)
    ensures
        final(w)@ == old(w)@ + optional_element(name@, opt_string_view(*value)),
{
    match value {
        Some(v) => {
            let ns: [(&str, &str); 1] = [("xmlns:spid", SPID_EXTENSIONS_NS)];
            assert(pairs_view(ns@) =~= spid_ns_attrs());
            let ghost start = w@;
            w.start_element(name, &ns);
            w.text(v.as_str());
            w.end_element(name);
            assert(w@ =~= start + optional_element(name@, opt_string_view(*value)));
        },
        None => {
            assert(w@ =~= w@ + Seq::<char>::empty());
        },
    }
}

// ── Parsing ────────────────────────────────────────────────────────────────

/// What a walk over the parsed extensions has found so far.
pub struct SpidScan {
    /// Whether any SPID-namespace element was seen.
    pub found_any: bool,
    /// The last SP type marker seen.
    pub sp_type: Option<SpidSpType>,
    /// The last VAT number seen.
    pub vat_number: Option<Seq<char>>,
    /// The last fiscal code seen.
    pub fiscal_code: Option<Seq<char>>,
    /// The last IPA code seen.
    pub ipa_code: Option<Seq<char>>,
    /// The last municipality seen.
    pub municipality: Option<Seq<char>>,
    /// The last province seen.
    pub province: Option<Seq<char>>,
    /// The last country seen.
    pub country: Option<Seq<char>>,
}

/// The text of an element: its character data, none when empty.
pub open spec fn element_text(e: XmlElement) -> Option<Seq<char>> {
    if children_deep_text(e.children@).len() == 0 {
        None
    } else {
        Some(children_deep_text(e.children@))
    }
}

/// The scan after visiting element `e`: a SPID-namespace element is noted,
/// and its text recorded under its name (or its type marker recorded).
pub open spec fn visit_element(s: SpidScan, e: XmlElement) -> SpidScan {
    if !namespace_is(e.namespace, SPID_EXTENSIONS_NS@) {
        s
    } else {
        let t = element_text(e);
        let n = e.local_name@;
        let s1 = SpidScan { found_any: true, ..s };
        if n == "VATNumber"@ {
            SpidScan { vat_number: t, ..s1 }
        } else if n == "FiscalCode"@ {
            SpidScan { fiscal_code: t, ..s1 }
        } else if n == "IPACode"@ {
            SpidScan { ipa_code: t, ..s1 }
        } else if n == "Municipality"@ {
            SpidScan { municipality: t, ..s1 }
        } else if n == "Province"@ {
            SpidScan { province: t, ..s1 }
        } else if n == "Country"@ {
            SpidScan { country: t, ..s1 }
        } else {
            match sp_type_from_name(n) {
                Some(ty) => SpidScan { sp_type: Some(ty), ..s1 },
                None => s1,
            }
        }
    }
}

/// The scan after visiting node `n` and its descendants in document order.
pub open spec fn scan_node(s: SpidScan, n: XmlNode) -> SpidScan
    decreases n,
{
    match n {
        XmlNode::Element(e) => scan_children(visit_element(s, e), e.children@),
        _ => s,
    }
}

/// The scan after visiting a sequence of siblings in order.
pub open spec fn scan_children(s: SpidScan, cs: Seq<XmlNode>) -> SpidScan
    decreases cs,
{
    if cs.len() == 0 {
        s
    } else {
        scan_node(scan_children(s, cs.drop_last()), cs.last())
    }
}

/// The empty scan.
pub open spec fn empty_scan() -> SpidScan {
    SpidScan {
        found_any: false,
        sp_type: None,
        vat_number: None,
        fiscal_code: None,
        ipa_code: None,
        municipality: None,
        province: None,
        country: None,
    }
}

/// Whether the raw XML may hold SPID elements at all.
pub open spec fn may_hold_spid(raw: Seq<char>) -> bool {
    seq_contains(raw, SPID_EXTENSIONS_NS@) || seq_contains(raw, "spid:"@) || seq_contains(raw, "VATNumber"@)
        || seq_contains(raw, "FiscalCode"@) || seq_contains(raw, "IPACode"@) || seq_contains(raw, "Public"@)
        || seq_contains(raw, "Private"@)
}

/// The extensions element to parse: the raw XML when it already holds an
/// `Extensions` element, else the raw XML wrapped in one.
pub open spec fn extensions_element(raw: Seq<char>) -> Seq<char> {
    if seq_contains(raw, "<md:Extensions"@) || seq_contains(raw, "<Extensions"@) {
        raw
    } else {
        MD_EXTENSIONS_OPEN@ + raw + "</md:Extensions>"@
    }
}

/// The opening of a wrapping `md:Extensions` element.
pub const MD_EXTENSIONS_OPEN: &'static str = "<md:Extensions xmlns:md=\"urn:oasis:names:tc:SAML:2.0:metadata\">";

/// The opening of the synthetic document root, declaring the `md` and
/// `spid` prefixes.
pub const SPID_ROOT_OPEN: &'static str = "<root xmlns:md=\"urn:oasis:names:tc:SAML:2.0:metadata\" xmlns:spid=\"https://spid.gov.it/saml-extensions\">";

/// The document parsed for `raw`.
pub open spec fn spid_document(raw: Seq<char>) -> Seq<char> {
    SPID_ROOT_OPEN@ + extensions_element(raw) + "</root>"@
}

/// The message when the document has no root element.
pub const EMPTY_DOCUMENT_MESSAGE: &'static str = "Empty document";

/// The result of reading SPID contact extensions from raw XML, as views.
pub open spec fn spid_from_raw(raw: Seq<char>) -> Result<Option<SpidView>, SpidErrorView> {
    if !may_hold_spid(raw) {
        Ok(None)
    } else {
        match parsed_document_element(spid_document(raw)) {
            None => Err(
                SpidErrorView::Parse(
                    match xml_parse_error_message(spid_document(raw)) {
                        Some(m) => m,
                        None => EMPTY_DOCUMENT_MESSAGE@,
                    },
                ),
            ),
            Some(root) => spid_from_root(root),
        }
    }
}

/// What the parsed wrapper document `root` holds: `None` without any SPID
/// element among its descendants, an error without an SP type marker, else
/// the fields found.
pub open spec fn spid_from_root(root: XmlElement) -> Result<Option<SpidView>, SpidErrorView> {
    let s = scan_children(empty_scan(), root.children@);
    if !s.found_any {
        Ok(None)
    } else {
        match s.sp_type {
            None => Err(SpidErrorView::MissingSpType),
            Some(t) => Ok(
                Some(
                    SpidView {
                        sp_type: t,
                        vat_number: s.vat_number,
                        fiscal_code: s.fiscal_code,
                        ipa_code: s.ipa_code,
                        municipality: s.municipality,
                        province: s.province,
                        country: s.country,
                    },
                ),
            ),
        }
    }
}

// ── Reading back what was written ──────────────────────────────────────────

/// One SPID element the writer emits: its local name and its text (none for
/// the SP type marker).
pub type SpidItem = (Seq<char>, Option<Seq<char>>);

/// The element for an optional field, when present.
pub open spec fn optional_item(name: Seq<char>, o: Option<Seq<char>>) -> Seq<SpidItem> {
    match o {
        Some(t) => seq![(name, Some(t))],
        None => Seq::empty(),
    }
}

/// The SPID elements `to_extensions` writes for `v`, in order: the present
/// fields, then the SP type marker.
pub open spec fn spid_items(v: SpidView) -> Seq<SpidItem> {
    optional_item("VATNumber"@, v.vat_number) + optional_item("FiscalCode"@, v.fiscal_code) + optional_item(
        "IPACode"@,
        v.ipa_code,
    ) + optional_item("Municipality"@, v.municipality) + optional_item("Province"@, v.province) + optional_item(
        "Country"@,
        v.country,
    ) + seq![(sp_marker_name(v.sp_type), None)]
}

/// Whether the node `n` is the SPID-namespace element `item`: a text field
/// holds exactly its text node, the marker is empty.
pub open spec fn is_item_node(n: XmlNode, item: SpidItem) -> bool {
    n matches XmlNode::Element(c) && namespace_is(c.namespace, SPID_EXTENSIONS_NS@) && c.local_name@ == item.0
        && match item.1 {
        Some(t) => c.children.len() == 1 && (c.children@[0] matches XmlNode::Text(x) && x@ == t),
        None => c.children.len() == 0,
    }
}

/// Whether the parsed wrapper document `root` has the shape of the markup
/// `to_extensions` writes for `v`: one wrapper element outside the SPID
/// namespace whose children are the elements of `spid_items(v)`.
pub open spec fn is_written_spid_tree(root: XmlElement, v: SpidView) -> bool {
    &&& root.children.len() == 1
    &&& root.children@[0] matches XmlNode::Element(m) && {
        &&& !namespace_is(m.namespace, SPID_EXTENSIONS_NS@)
        &&& m.children.len() == spid_items(v).len()
        &&& forall|i: int| 0 <= i < m.children.len() ==> is_item_node(#[trigger] m.children@[i], spid_items(v)[i])
    }
}

/// Every text field of `v` that is present is non-empty.
pub open spec fn has_nonempty_fields(v: SpidView) -> bool {
    &&& (v.vat_number matches Some(t) ==> t.len() > 0)
    &&& (v.fiscal_code matches Some(t) ==> t.len() > 0)
    &&& (v.ipa_code matches Some(t) ==> t.len() > 0)
    &&& (v.municipality matches Some(t) ==> t.len() > 0)
    &&& (v.province matches Some(t) ==> t.len() > 0)
    &&& (v.country matches Some(t) ==> t.len() > 0)
}

/// The scan after reading the element `item`.
pub open spec fn scan_item(s: SpidScan, item: SpidItem) -> SpidScan {
    let s1 = SpidScan { found_any: true, ..s };
    let n = item.0;
    let t = item.1;
    if n == "VATNumber"@ {
        SpidScan { vat_number: t, ..s1 }
    } else if n == "FiscalCode"@ {
        SpidScan { fiscal_code: t, ..s1 }
    } else if n == "IPACode"@ {
        SpidScan { ipa_code: t, ..s1 }
    } else if n == "Municipality"@ {
        SpidScan { municipality: t, ..s1 }
    } else if n == "Province"@ {
        SpidScan { province: t, ..s1 }
    } else if n == "Country"@ {
        SpidScan { country: t, ..s1 }
    } else {
        match sp_type_from_name(n) {
            Some(ty) => SpidScan { sp_type: Some(ty), ..s1 },
            None => s1,
        }
    }
}

/// The scan after reading the elements `items` in order.
pub open spec fn scan_items(s: SpidScan, items: Seq<SpidItem>) -> SpidScan
    decreases items.len(),
{
    if items.len() == 0 {
        s
    } else {
        scan_item(scan_items(s, items.drop_last()), items.last())
    }
}

/// Reading a node that is the element `item` is reading `item`.
proof fn lemma_item_node(s: SpidScan, n: XmlNode, item: SpidItem)
    requires
        is_item_node(n, item),
        item.1 matches Some(t) ==> t.len() > 0,
    ensures
        scan_node(s, n) == scan_item(s, item),
{
    if let XmlNode::Element(c) = n {
        match item.1 {
            Some(t) => {
                let cs = c.children@;
                assert(cs.drop_last() =~= Seq::<XmlNode>::empty());
                assert(children_deep_text(cs.drop_last()) =~= Seq::<char>::empty());
                assert(node_deep_text(cs.last()) == t);
                assert(children_deep_text(cs) =~= t);
                let v = visit_element(s, c);
                assert(scan_children(v, cs) == scan_node(scan_children(v, cs.drop_last()), cs.last()));
            },
            None => {
                assert(c.children@ =~= Seq::<XmlNode>::empty());
                assert(children_deep_text(c.children@) =~= Seq::<char>::empty());
            },
        }
    }
}

/// Reading siblings that are the elements `items` is reading `items`.
proof fn lemma_item_nodes(s: SpidScan, cs: Seq<XmlNode>, items: Seq<SpidItem>)
    requires
        cs.len() == items.len(),
        forall|i: int| 0 <= i < cs.len() ==> is_item_node(#[trigger] cs[i], items[i]),
        forall|i: int| 0 <= i < items.len() ==> ((#[trigger] items[i]).1 matches Some(t) ==> t.len() > 0),
    ensures
        scan_children(s, cs) == scan_items(s, items),
    decreases cs.len(),
{
    if cs.len() > 0 {
        let k = cs.len() - 1;
        assert(is_item_node(cs[k], items[k]));
        assert(items[k] == items.last());
        lemma_item_nodes(s, cs.drop_last(), items.drop_last());
        lemma_item_node(scan_children(s, cs.drop_last()), cs.last(), items.last());
    }
}

/// Reading two runs of elements one after the other.
proof fn lemma_scan_items_append(s: SpidScan, a: Seq<SpidItem>, b: Seq<SpidItem>)
    ensures
        scan_items(s, a + b) == scan_items(scan_items(s, a), b),
    decreases b.len(),
{
    if b.len() > 0 {
        assert((a + b).drop_last() =~= a + b.drop_last());
        lemma_scan_items_append(s, a, b.drop_last());
    }
}

/// The lengths of the SPID element names, and what tells apart the names of
/// equal length.
proof fn lemma_name_facts()
    ensures
        "VATNumber"@.len() == 9,
        "FiscalCode"@.len() == 10,
        "IPACode"@.len() == 7,
        "Municipality"@.len() == 12,
        "Province"@.len() == 8,
        "Country"@.len() == 7,
        "Public"@.len() == 6,
        "Private"@.len() == 7,
        "PublicServicesFullAggregator"@.len() == 28,
        "PublicServicesLightAggregator"@.len() == 29,
        "PrivateServicesFullAggregator"@.len() == 29,
        "PrivateServicesLightAggregator"@.len() == 30,
        "PublicServicesFullOperator"@.len() == 26,
        "PublicServicesLightOperator"@.len() == 27,
        "PublicOperator"@.len() == 14,
        "Private"@[0] == 'P',
        "IPACode"@[0] == 'I',
        "Country"@[0] == 'C',
        "PublicServicesLightAggregator"@[1] == 'u',
        "PrivateServicesFullAggregator"@[1] == 'r',
{
    reveal_strlit("VATNumber");
    reveal_strlit("FiscalCode");
    reveal_strlit("IPACode");
    reveal_strlit("Municipality");
    reveal_strlit("Province");
    reveal_strlit("Country");
    reveal_strlit("Public");
    reveal_strlit("Private");
    reveal_strlit("PublicServicesFullAggregator");
    reveal_strlit("PublicServicesLightAggregator");
    reveal_strlit("PrivateServicesFullAggregator");
    reveal_strlit("PrivateServicesLightAggregator");
    reveal_strlit("PublicServicesFullOperator");
    reveal_strlit("PublicServicesLightOperator");
    reveal_strlit("PublicOperator");
}

/// Each marker name names its own SP type, and none is a field name.
proof fn lemma_marker_names(t: SpidSpType)
    ensures
        sp_type_from_name(sp_marker_name(t)) == Some(t),
        sp_marker_name(t) != "VATNumber"@,
        sp_marker_name(t) != "FiscalCode"@,
        sp_marker_name(t) != "IPACode"@,
        sp_marker_name(t) != "Municipality"@,
        sp_marker_name(t) != "Province"@,
        sp_marker_name(t) != "Country"@,
{
    lemma_name_facts();
    match t {
        SpidSpType::Public => {},
        SpidSpType::Private => {},
        SpidSpType::PublicServicesFullAggregator => {},
        SpidSpType::PublicServicesLightAggregator => {},
        SpidSpType::PrivateServicesFullAggregator => {},
        SpidSpType::PrivateServicesLightAggregator => {},
        SpidSpType::PublicServicesFullOperator => {},
        SpidSpType::PublicServicesLightOperator => {},
        SpidSpType::PublicOperator => {},
    }
}

/// Reading the elements written for `v` gives back every field of `v`.
proof fn lemma_scan_spid_items(v: SpidView)
    ensures
        scan_items(empty_scan(), spid_items(v)) == (SpidScan {
            found_any: true,
            sp_type: Some(v.sp_type),
            vat_number: v.vat_number,
            fiscal_code: v.fiscal_code,
            ipa_code: v.ipa_code,
            municipality: v.municipality,
            province: v.province,
            country: v.country,
        }),
{
    lemma_name_facts();
    lemma_marker_names(v.sp_type);
    let a1 = optional_item("VATNumber"@, v.vat_number);
    let a2 = optional_item("FiscalCode"@, v.fiscal_code);
    let a3 = optional_item("IPACode"@, v.ipa_code);
    let a4 = optional_item("Municipality"@, v.municipality);
    let a5 = optional_item("Province"@, v.province);
    let a6 = optional_item("Country"@, v.country);
    let a7: Seq<SpidItem> = seq![(sp_marker_name(v.sp_type), None)];
    let s0 = empty_scan();
    lemma_scan_items_append(s0, a1, a2);
    lemma_scan_items_append(s0, a1 + a2, a3);
    lemma_scan_items_append(s0, a1 + a2 + a3, a4);
    lemma_scan_items_append(s0, a1 + a2 + a3 + a4, a5);
    lemma_scan_items_append(s0, a1 + a2 + a3 + a4 + a5, a6);
    lemma_scan_items_append(s0, a1 + a2 + a3 + a4 + a5 + a6, a7);
    assert forall|s: SpidScan, n: Seq<char>, o: Option<Seq<char>>| #[trigger] scan_items(s, optional_item(n, o))
        == match o {
        Some(t) => scan_item(s, (n, Some(t))),
        None => s,
    } by {
        match o {
            Some(t) => {
                assert(optional_item(n, o).drop_last() =~= Seq::<SpidItem>::empty());
                assert(scan_items(s, optional_item(n, o).drop_last()) == s);
            },
            None => {},
        }
    }
    assert(a7.drop_last() =~= Seq::<SpidItem>::empty());
    assert(scan_items(scan_items(s0, a1 + a2 + a3 + a4 + a5 + a6), a7.drop_last()) == scan_items(s0, a1 + a2 + a3 + a4 + a5 + a6));
}

/// What `to_extensions` writes reads back: a parsed wrapper document with
/// the shape of the markup written for `v` (see `is_written_spid_tree`)
/// reads as `v`, when every present text field of `v` is non-empty. That
/// the parser gives such a document for the written markup is not stated
/// here.
pub proof fn lemma_written_spid_tree_reads_back(root: XmlElement, v: SpidView)
    requires
        is_written_spid_tree(root, v),
        has_nonempty_fields(v),
    ensures
        spid_from_root(root) == Ok::<Option<SpidView>, SpidErrorView>(Some(v)),
{
    if let XmlNode::Element(m) = root.children@[0] {
        let items = spid_items(v);
        assert forall|i: int| 0 <= i < items.len() implies ((#[trigger] items[i]).1 matches Some(t) ==> t.len() > 0) by {
            let a1 = optional_item("VATNumber"@, v.vat_number);
            let a2 = optional_item("FiscalCode"@, v.fiscal_code);
            let a3 = optional_item("IPACode"@, v.ipa_code);
            let a4 = optional_item("Municipality"@, v.municipality);
            let a5 = optional_item("Province"@, v.province);
            let a6 = optional_item("Country"@, v.country);
            assert(items =~= a1 + a2 + a3 + a4 + a5 + a6 + seq![(sp_marker_name(v.sp_type), None::<Seq<char>>)]);
        }
        lemma_item_nodes(visit_element(empty_scan(), m), m.children@, items);
        assert(visit_element(empty_scan(), m) == empty_scan());
        lemma_scan_spid_items(v);
        let cs = root.children@;
        assert(cs.drop_last() =~= Seq::<XmlNode>::empty());
        assert(scan_children(empty_scan(), cs) == scan_node(scan_children(empty_scan(), cs.drop_last()), cs.last()));
    }
}

/// The abstract view of a SPID extension error.
pub enum SpidErrorView {
    /// A parse error with this message.
    Parse(Seq<char>),
    /// No SP type marker.
    MissingSpType,
}

/// The view of a SPID extension error.
pub open spec fn spid_error_view(e: SpidExtensionError) -> SpidErrorView {
    match e {
        SpidExtensionError::ParseError(m) => SpidErrorView::Parse(m@),
        SpidExtensionError::MissingSpType => SpidErrorView::MissingSpType,
    }
}

/// The view of a parse outcome.
pub open spec fn spid_result_view(r: Result<Option<SpidContactExtensions>, SpidExtensionError>) -> Result<
    Option<SpidView>,
    SpidErrorView,
> {
    match r {
        Ok(Some(x)) => Ok(Some(spid_view(x))),
        Ok(None) => Ok(None),
        Err(e) => Err(spid_error_view(e)),
    }
}

/// The fields collected during the walk.
struct SpidFields {
    found_any: bool,
    sp_type: Option<SpidSpType>,
    vat_number: Option<String>,
    fiscal_code: Option<String>,
    ipa_code: Option<String>,
    municipality: Option<String>,
    province: Option<String>,
    country: Option<String>,
}

/// The scan the fields hold.
spec fn fields_view(f: SpidFields) -> SpidScan {
    SpidScan {
        found_any: f.found_any,
        sp_type: f.sp_type,
        vat_number: opt_string_view(f.vat_number),
        fiscal_code: opt_string_view(f.fiscal_code),
        ipa_code: opt_string_view(f.ipa_code),
        municipality: opt_string_view(f.municipality),
        province: opt_string_view(f.province),
        country: opt_string_view(f.country),
    }
}

/// The text of element node `n` (the character data of its subtree), none
/// when empty.
fn element_text_of(n: &XmlNode, e: &XmlElement) -> (r: Option<String>)
    requires
        *n == XmlNode::Element(*e),
    ensures
        opt_string_view(r) == element_text(*e),
{
    let mut text: Vec<char> = Vec::new();
    collect_deep_text(n, &mut text);
    assert(text@ =~= children_deep_text(e.children@));
    if text.len() == 0 {
        None
    } else {
        Some(string_of(text.as_slice()))
    }
}

/// Records element `e` (the element of node `n`) in the fields.
fn visit_elements(f: &mut SpidFields, n: &XmlNode, e: &XmlElement)
    requires
        *n == XmlNode::Element(*e),
    ensures
        fields_view(*final(f)) == visit_element(fields_view(*old(f)), *e),
{
    let is_spid = match &e.namespace {
        Some(ns) => crate::text::str_eq(ns.as_str(), SPID_EXTENSIONS_NS),
        None => false,
    };
    if !is_spid {
        return;
    }
    f.found_any = true;
    let text = element_text_of(n, e);
    let name = e.local_name.as_str();
    if crate::text::str_eq(name, "VATNumber") {
        f.vat_number = text;
    } else if crate::text::str_eq(name, "FiscalCode") {
        f.fiscal_code = text;
    } else if crate::text::str_eq(name, "IPACode") {
        f.ipa_code = text;
    } else if crate::text::str_eq(name, "Municipality") {
        f.municipality = text;
    } else if crate::text::str_eq(name, "Province") {
        f.province = text;
    } else if crate::text::str_eq(name, "Country") {
        f.country = text;
    } else {
        match SpidSpType::from_element_name(name) {
            Some(t) => {
                f.sp_type = Some(t);
            },
            None => {},
        }
    }
}

/// Walks node `n` and its descendants in document order.
fn walk(f: &mut SpidFields, n: &XmlNode)
    ensures
        fields_view(*final(f)) == scan_node(fields_view(*old(f)), *n),
    decreases n,
{
    match n {
        XmlNode::Element(e) => {
            visit_elements(f, n, e);
            walk_children(f, n, e);
        },
        _ => {},
    }
}

/// Walks the children of element `e` (the element of node `n`) in order.
fn walk_children(f: &mut SpidFields, n: &XmlNode, e: &XmlElement)
    requires
        *n == XmlNode::Element(*e),
    ensures
        fields_view(*final(f)) == scan_children(fields_view(*old(f)), e.children@),
    decreases n, 0nat,
{
    let ghost start = fields_view(*f);
    let mut i: usize = 0;
    while i < e.children.len()
        invariant
            *n == XmlNode::Element(*e),
            i <= e.children.len(),
            fields_view(*f) == scan_children(start, e.children@.subrange(0, i as int)),
        decreases e.children.len() - i,
    {
        assert(e.children@.subrange(0, i + 1).drop_last() =~= e.children@.subrange(0, i as int));
        proof {
            assert(decreases_to!(*n => (*n)->Element_0));
            assert((*n)->Element_0 == *e);
            assert(decreases_to!(*e => e.children));
            assert(decreases_to!(e.children => e.children@));
            assert(decreases_to!(e.children@ => e.children@[i as int]));
        }
        walk(f, &e.children[i]);
        i = i + 1;
    }
    assert(e.children@.subrange(0, i as int) =~= e.children@);
}

impl SpidContactExtensions {
    /// Create extensions for a public administration SP.
    pub fn public_sp(ipa_code: &str) -> (r: Self)
        ensures
            spid_view(r) == (SpidView {
                sp_type: SpidSpType::Public,
                vat_number: None,
                fiscal_code: None,
                ipa_code: Some(ipa_code@),
                municipality: None,
                province: None,
                country: None,
            }),
    {
        SpidContactExtensions {
            sp_type: SpidSpType::Public,
            vat_number: None,
            fiscal_code: None,
            ipa_code: Some(to_owned_string(ipa_code)),
            municipality: None,
            province: None,
            country: None,
        }
    }

    /// Create extensions for a private SP.
    pub fn private_sp(vat_number: &str, fiscal_code: &str) -> (r: Self)
        ensures
            spid_view(r) == (SpidView {
                sp_type: SpidSpType::Private,
                vat_number: Some(vat_number@),
                fiscal_code: Some(fiscal_code@),
                ipa_code: None,
                municipality: None,
                province: None,
                country: None,
            }),
    {
        SpidContactExtensions {
            sp_type: SpidSpType::Private,
            vat_number: Some(to_owned_string(vat_number)),
            fiscal_code: Some(to_owned_string(fiscal_code)),
            ipa_code: None,
            municipality: None,
            province: None,
            country: None,
        }
    }

    /// Serialize into an `Extensions` value suitable for use in a
    /// `ContactPerson`: the `<md:Extensions>` wrapper with SPID
    /// namespace-qualified child elements.
    pub fn to_extensions(&self) -> (r: Extensions)
        ensures
            r.raw_xml@ == spid_extensions_xml(spid_view(*self)),
    {
        let mut w = XmlBuffer::new();
        let none: [(&str, &str); 0] = [];
        assert(pairs_view(none@) =~= Seq::<(Seq<char>, Seq<char>)>::empty());
        w.start_element("md:Extensions", &none);
        write_optional(&mut w, "spid:VATNumber", &self.vat_number);
        write_optional(&mut w, "spid:FiscalCode", &self.fiscal_code);
        write_optional(&mut w, "spid:IPACode", &self.ipa_code);
        write_optional(&mut w, "spid:Municipality", &self.municipality);
        write_optional(&mut w, "spid:Province", &self.province);
        write_optional(&mut w, "spid:Country", &self.country);
        let mut marker_name = to_owned_string("spid:");
        push_str(&mut marker_name, self.sp_type.element_name());
        let ns: [(&str, &str); 1] = [("xmlns:spid", SPID_EXTENSIONS_NS)];
        assert(pairs_view(ns@) =~= spid_ns_attrs());
        w.empty_element(marker_name.as_str(), &ns);
        w.end_element("md:Extensions");
        assert(w@ =~= spid_extensions_xml(spid_view(*self)));
        Extensions::new(w.into_string().as_str())
    }

    /// Try to parse SPID contact extensions from an `Extensions` value.
    ///
    /// Returns `None` if the extensions don't contain recognizable SPID
    /// elements, or `Err` if parsing fails or no SP type marker is found.
    pub fn from_extensions(ext: &Extensions) -> (r: Result<Option<Self>, SpidExtensionError>)
        ensures
            spid_result_view(r) == spid_from_raw(ext.raw_xml@),
    {
        Self::parse_raw_xml(ext.raw_xml.as_str())
    }

    /// Parse from raw XML (the `Extensions` content).
    fn parse_raw_xml(raw_xml: &str) -> (r: Result<Option<Self>, SpidExtensionError>)
        ensures
            spid_result_view(r) == spid_from_raw(raw_xml@),
    {
        if !(str_contains(raw_xml, SPID_EXTENSIONS_NS) || str_contains(raw_xml, "spid:") || str_contains(
            raw_xml,
            "VATNumber",
        ) || str_contains(raw_xml, "FiscalCode") || str_contains(raw_xml, "IPACode") || str_contains(
            raw_xml,
            "Public",
        ) || str_contains(raw_xml, "Private")) {
            return Ok(None);
        }
        let mut full = to_owned_string(SPID_ROOT_OPEN);
        if str_contains(raw_xml, "<md:Extensions") || str_contains(raw_xml, "<Extensions") {
            push_str(&mut full, raw_xml);
        } else {
            push_str(&mut full, MD_EXTENSIONS_OPEN);
            push_str(&mut full, raw_xml);
            push_str(&mut full, "</md:Extensions>");
        }
        push_str(&mut full, "</root>");
        assert(full@ =~= spid_document(raw_xml@));
        let root = match parse_xml(full.as_str()) {
            Some(root) => root,
            None => {
                let message = match xml_parse_error(full.as_str()) {
                    Some(m) => m,
                    None => to_owned_string(EMPTY_DOCUMENT_MESSAGE),
                };
                return Err(SpidExtensionError::ParseError(message));
            },
        };
        Self::from_parsed_root(root)
    }

    /// Reads the SPID fields from the parsed wrapper document `root` (see
    /// `spid_from_root`).
    pub fn from_parsed_root(root: XmlElement) -> (r: Result<Option<Self>, SpidExtensionError>)
        ensures
            spid_result_view(r) == spid_from_root(root),
    {
        let mut f = SpidFields {
            found_any: false,
            sp_type: None,
            vat_number: None,
            fiscal_code: None,
            ipa_code: None,
            municipality: None,
            province: None,
            country: None,
        };
        let node = XmlNode::Element(root);
        let XmlNode::Element(re) = &node else {
            return Ok(None);
        };
        assert(fields_view(f) == empty_scan());
        walk_children(&mut f, &node, re);
        if !f.found_any {
            return Ok(None);
        }
        match f.sp_type {
            None => Err(SpidExtensionError::MissingSpType),
            Some(sp_type) => Ok(
                Some(
                    SpidContactExtensions {
                        sp_type,
                        vat_number: f.vat_number,
                        fiscal_code: f.fiscal_code,
                        ipa_code: f.ipa_code,
                        municipality: f.municipality,
                        province: f.province,
                        country: f.country,
                    },
                ),
            ),
        }
    }
}

// ── Errors ─────────────────────────────────────────────────────────────────

/// Error type for SPID extension parsing.
#[derive(Debug, Clone, PartialEq)]
pub enum SpidExtensionError {
    /// Failed to parse the XML content.
    ParseError(String),
    /// No SP type marker element found (Public, Private, etc.).
    MissingSpType,
}

/// The message describing a SPID extension error.
pub open spec fn spid_error_text(e: SpidExtensionError) -> Seq<char> {
    match e {
        SpidExtensionError::ParseError(m) => "SPID extension parse error: "@ + m@,
        SpidExtensionError::MissingSpType => "SPID extension missing SP type marker (Public/Private/...)"@,
    }
}

impl SpidExtensionError {
    /// The human-readable message for this error.
    pub fn to_string(&self) -> (r: String)
        ensures
            r@ == spid_error_text(*self),
    {
        match self {
            SpidExtensionError::ParseError(m) => {
                let mut s = to_owned_string("SPID extension parse error: ");
                push_str(&mut s, m.as_str());
                s
            },
            SpidExtensionError::MissingSpType => to_owned_string(
                "SPID extension missing SP type marker (Public/Private/...)",
            ),
        }
    }
}

} // verus!
