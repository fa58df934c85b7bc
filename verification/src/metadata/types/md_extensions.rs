//! Structured accessors over the raw XML kept in metadata `Extensions`:
//! `mdrpi:RegistrationInfo`, `mdattr:EntityAttributes`, the first
//! `mdui:UIInfo`, and the `alg:SigningMethod` / `alg:DigestMethod` lists.
//!
//! The fragment is wrapped in a root declaring the usual prefixes and parsed
//! on demand; anything missing or malformed yields "no signal", never an
//! error.

use vstd::prelude::*;
use super::extensions::Extensions;
use crate::metadata::types::key_descriptor::collect_deep_text;
use crate::text::{
    chars_of, opt_string_view, parse_u32, parsed_u32, push_str, seq_contains, str_contains, str_eq, string_of,
    strings_clone, strings_view, to_owned_string, trim, trim_chars,
};
use crate::xml::{
    attribute_value, attribute_value_ns, children_deep_text, get_attribute, get_attribute_ns, namespace_is,
    parse_xml, parsed_document_element, XmlElement, XmlNode,
};

verus! {

/// SAML V2.0 Metadata RPI namespace.
pub const MDRPI_NS: &'static str = "urn:oasis:names:tc:SAML:metadata:rpi";
/// SAML V2.0 Metadata Extensions for Entity Attributes namespace.
pub const MDATTR_NS: &'static str = "urn:oasis:names:tc:SAML:metadata:attribute";
/// SAML 2.0 assertion namespace (for `saml:Attribute` / `saml:AttributeValue`).
pub const SAML_ASSERTION_NS: &'static str = "urn:oasis:names:tc:SAML:2.0:assertion";
/// The entity-attribute `Name` that carries entity-category URIs.
pub const ENTITY_CATEGORY_ATTR: &'static str = "http://macedir.org/entity-category";
/// SAML V2.0 Metadata Extensions for Login and Discovery UI (MDUI) namespace.
pub const MDUI_NS: &'static str = "urn:oasis:names:tc:SAML:metadata:ui";
/// SAML V2.0 Metadata Extensions for Algorithm Support namespace.
pub const ALGSUPPORT_NS: &'static str = "urn:oasis:names:tc:SAML:metadata:algsupport";
/// XML namespace, for the `xml:lang` attribute.
pub const XML_NS: &'static str = "http://www.w3.org/XML/1998/namespace";

/// A localized string (`xml:lang` plus value) from an MDUI element.
///
/// `value` is **attacker-controlled** (see [`UiInfo`]); output-encode it before
/// rendering.
#[derive(Debug, Clone, Default, PartialEq, Eq)]
pub struct LocalizedText {
    /// The `xml:lang` tag, if present.
    pub lang: Option<String>,
    /// The element text. Attacker-controlled; output-encode before display.
    pub value: String,
}

/// An `mdui:Logo` (a URL with optional dimensions and language).
#[derive(Debug, Clone, Default, PartialEq, Eq)]
pub struct UiLogo {
    /// The `xml:lang` tag, if present.
    pub lang: Option<String>,
    /// Logo width in pixels, if a valid integer was given.
    pub width: Option<u32>,
    /// Logo height in pixels, if a valid integer was given.
    pub height: Option<u32>,
    /// The logo URL (or `data:` URI). **Attacker-controlled and unvalidated**:
    /// the scheme is not restricted, so before using it as an `<img src>` or
    /// link target a consumer MUST reject anything outside an expected
    /// allowlist.
    pub url: String,
}

/// Parsed `mdui:UIInfo` (SP/IdP display metadata for consent and discovery UIs).
///
/// # Security
///
/// Every field is copied **verbatim from attacker-controllable metadata**
/// and is parsed for display, not validated for safety: output-encode the
/// strings and restrict URL schemes before emitting them.
#[derive(Debug, Clone, PartialEq, Eq)]
pub struct UiInfo {
    /// `mdui:DisplayName` entries. Attacker-controlled; output-encode.
    pub display_names: Vec<LocalizedText>,
    /// `mdui:Description` entries. Attacker-controlled; output-encode.
    pub descriptions: Vec<LocalizedText>,
    /// `mdui:InformationURL` entries (not scheme-checked).
    pub information_urls: Vec<LocalizedText>,
    /// `mdui:PrivacyStatementURL` entries (not scheme-checked).
    pub privacy_statement_urls: Vec<LocalizedText>,
    /// `mdui:Keywords` entries (each value is the raw space-separated string).
    pub keywords: Vec<LocalizedText>,
    /// `mdui:Logo` entries. See [`UiLogo::url`] for the URL trust caveat.
    pub logos: Vec<UiLogo>,
}

/// Parsed view of the attribute-release-relevant metadata extensions of one
/// entity (empty when the entity has no such extensions).
#[derive(Debug, Clone, PartialEq, Eq)]
pub struct MdExtensions {
    /// `mdrpi:RegistrationInfo/@registrationAuthority`, if present.
    pub registration_authority: Option<String>,
    /// `mdattr:EntityAttributes` as `(Name, values)` pairs, in document order.
    pub entity_attributes: Vec<(String, Vec<String>)>,
    /// The first `mdui:UIInfo` found, if any.
    pub ui_info: Option<UiInfo>,
    /// `alg:SigningMethod/@Algorithm` URIs, in document order.
    pub signing_methods: Vec<String>,
    /// `alg:DigestMethod/@Algorithm` URIs, in document order.
    pub digest_methods: Vec<String>,
}

// ── Views ───────────────────────────────────────────────────────────────────

/// A localized text as (language, value).
pub type TextView = (Option<Seq<char>>, Seq<char>);

/// A logo as (language, width, height, URL).
pub type LogoView = (Option<Seq<char>>, Option<u32>, Option<u32>, Seq<char>);

/// The abstract content of a `UIInfo`.
#[verifier::ext_equal]
pub struct UiInfoView {
    /// Display names.
    pub display_names: Seq<TextView>,
    /// Descriptions.
    pub descriptions: Seq<TextView>,
    /// Information URLs.
    pub information_urls: Seq<TextView>,
    /// Privacy statement URLs.
    pub privacy_statement_urls: Seq<TextView>,
    /// Keywords.
    pub keywords: Seq<TextView>,
    /// Logos.
    pub logos: Seq<LogoView>,
}

/// The abstract content of parsed extensions.
#[verifier::ext_equal]
pub struct MdView {
    /// The registration authority.
    pub registration_authority: Option<Seq<char>>,
    /// The entity attributes as (name, values).
    pub entity_attributes: Seq<(Seq<char>, Seq<Seq<char>>)>,
    /// The first UIInfo.
    pub ui_info: Option<UiInfoView>,
    /// The signing methods.
    pub signing_methods: Seq<Seq<char>>,
    /// The digest methods.
    pub digest_methods: Seq<Seq<char>>,
}

/// The view of localized texts.
pub open spec fn texts_view(v: Seq<LocalizedText>) -> Seq<TextView> {
    Seq::new(v.len(), |i: int| (opt_string_view(v[i].lang), v[i].value@))
}

/// The view of logos.
pub open spec fn logos_view(v: Seq<UiLogo>) -> Seq<LogoView> {
    Seq::new(v.len(), |i: int| (opt_string_view(v[i].lang), v[i].width, v[i].height, v[i].url@))
}

/// The view of a UIInfo.
pub open spec fn ui_view(u: UiInfo) -> UiInfoView {
    UiInfoView {
        display_names: texts_view(u.display_names@),
        descriptions: texts_view(u.descriptions@),
        information_urls: texts_view(u.information_urls@),
        privacy_statement_urls: texts_view(u.privacy_statement_urls@),
        keywords: texts_view(u.keywords@),
        logos: logos_view(u.logos@),
    }
}

/// The view of entity attributes.
pub open spec fn entity_attributes_view(v: Seq<(String, Vec<String>)>) -> Seq<(Seq<char>, Seq<Seq<char>>)> {
    Seq::new(v.len(), |i: int| (v[i].0@, strings_view(v[i].1@)))
}

/// The view of parsed extensions.
pub open spec fn md_view(m: MdExtensions) -> MdView {
    MdView {
        registration_authority: opt_string_view(m.registration_authority),
        entity_attributes: entity_attributes_view(m.entity_attributes@),
        ui_info: match m.ui_info {
            Some(u) => Some(ui_view(u)),
            None => None,
        },
        signing_methods: strings_view(m.signing_methods@),
        digest_methods: strings_view(m.digest_methods@),
    }
}

/// No UIInfo entries.
pub open spec fn empty_ui() -> UiInfoView {
    UiInfoView {
        display_names: Seq::empty(),
        descriptions: Seq::empty(),
        information_urls: Seq::empty(),
        privacy_statement_urls: Seq::empty(),
        keywords: Seq::empty(),
        logos: Seq::empty(),
    }
}

/// No extensions at all.
pub open spec fn empty_md() -> MdView {
    MdView {
        registration_authority: None,
        entity_attributes: Seq::empty(),
        ui_info: None,
        signing_methods: Seq::empty(),
        digest_methods: Seq::empty(),
    }
}

// ── The reading, stated ────────────────────────────────────────────────────

/// Whether `e` is `{ns}local`.
pub open spec fn is_element(e: XmlElement, ns: Seq<char>, local: Seq<char>) -> bool {
    namespace_is(e.namespace, ns) && e.local_name@ == local
}

/// The trimmed character data of an element.
pub open spec fn trimmed_text(e: XmlElement) -> Seq<char> {
    trim(children_deep_text(e.children@))
}

/// The trimmed, non-empty text of the `saml:AttributeValue` children, in
/// order.
pub open spec fn saml_attribute_values(cs: Seq<XmlNode>) -> Seq<Seq<char>>
    decreases cs.len(),
{
    if cs.len() == 0 {
        Seq::empty()
    } else {
        saml_attribute_values(cs.drop_last()) + match cs.last() {
            XmlNode::Element(v) => if is_element(v, SAML_ASSERTION_NS@, "AttributeValue"@) && trimmed_text(v).len()
                > 0 {
                seq![trimmed_text(v)]
            } else {
                Seq::empty()
            },
            _ => Seq::empty(),
        }
    }
}

/// The `xml:lang` of an element: the attribute in the XML namespace, else one
/// literally named `xml:lang`.
pub open spec fn element_lang(e: XmlElement) -> Option<Seq<char>> {
    match attribute_value_ns(e.attributes@, XML_NS@, "lang"@) {
        Some(l) => Some(l),
        None => attribute_value(e.attributes@, "xml:lang"@),
    }
}

/// A numeric attribute: its value when it parses as a 32-bit unsigned
/// integer.
pub open spec fn numeric_attribute(e: XmlElement, name: Seq<char>) -> Option<u32> {
    match attribute_value(e.attributes@, name) {
        Some(v) => parsed_u32(v),
        None => None,
    }
}

/// The UIInfo after one more child element of `mdui:UIInfo`.
pub open spec fn ui_step(u: UiInfoView, e: XmlElement) -> UiInfoView {
    if !namespace_is(e.namespace, MDUI_NS@) {
        u
    } else {
        let t = (element_lang(e), trimmed_text(e));
        let n = e.local_name@;
        if n == "DisplayName"@ {
            UiInfoView { display_names: u.display_names.push(t), ..u }
        } else if n == "Description"@ {
            UiInfoView { descriptions: u.descriptions.push(t), ..u }
        } else if n == "InformationURL"@ {
            UiInfoView { information_urls: u.information_urls.push(t), ..u }
        } else if n == "PrivacyStatementURL"@ {
            UiInfoView { privacy_statement_urls: u.privacy_statement_urls.push(t), ..u }
        } else if n == "Keywords"@ {
            UiInfoView { keywords: u.keywords.push(t), ..u }
        } else if n == "Logo"@ {
            UiInfoView {
                logos: u.logos.push(
                    (element_lang(e), numeric_attribute(e, "width"@), numeric_attribute(e, "height"@), trimmed_text(e)),
                ),
                ..u
            }
        } else {
            u
        }
    }
}

/// The UIInfo read from the children of an `mdui:UIInfo` element.
pub open spec fn ui_from_children(cs: Seq<XmlNode>) -> UiInfoView
    decreases cs.len(),
{
    if cs.len() == 0 {
        empty_ui()
    } else {
        match cs.last() {
            XmlNode::Element(e) => ui_step(ui_from_children(cs.drop_last()), e),
            _ => ui_from_children(cs.drop_last()),
        }
    }
}

/// The reading after the subtree of `n`; `in_ea` says whether `n` sits inside
/// an `mdattr:EntityAttributes`. The first registration authority and the
/// first UIInfo win; a UIInfo's subtree is read by [`ui_from_children`] and
/// not walked further; a `saml:Attribute` counts only inside
/// `EntityAttributes`.
pub open spec fn md_node(s: MdView, n: XmlNode, in_ea: bool) -> MdView
    decreases n,
{
    match n {
        XmlNode::Element(e) => if is_element(e, MDRPI_NS@, "RegistrationInfo"@) {
            let s1 = if s.registration_authority is None && attribute_value(
                e.attributes@,
                "registrationAuthority"@,
            ) is Some {
                MdView { registration_authority: attribute_value(e.attributes@, "registrationAuthority"@), ..s }
            } else {
                s
            };
            md_children(s1, e.children@, in_ea)
        } else if is_element(e, MDATTR_NS@, "EntityAttributes"@) {
            md_children(s, e.children@, true)
        } else if in_ea && is_element(e, SAML_ASSERTION_NS@, "Attribute"@) {
            let s1 = match attribute_value(e.attributes@, "Name"@) {
                Some(name) => MdView {
                    entity_attributes: s.entity_attributes.push((name, saml_attribute_values(e.children@))),
                    ..s
                },
                None => s,
            };
            md_children(s1, e.children@, in_ea)
        } else if is_element(e, MDUI_NS@, "UIInfo"@) {
            if s.ui_info is None {
                MdView { ui_info: Some(ui_from_children(e.children@)), ..s }
            } else {
                s
            }
        } else if is_element(e, ALGSUPPORT_NS@, "SigningMethod"@) {
            let s1 = match attribute_value(e.attributes@, "Algorithm"@) {
                Some(a) => MdView { signing_methods: s.signing_methods.push(a), ..s },
                None => s,
            };
            md_children(s1, e.children@, in_ea)
        } else if is_element(e, ALGSUPPORT_NS@, "DigestMethod"@) {
            let s1 = match attribute_value(e.attributes@, "Algorithm"@) {
                Some(a) => MdView { digest_methods: s.digest_methods.push(a), ..s },
                None => s,
            };
            md_children(s1, e.children@, in_ea)
        } else {
            md_children(s, e.children@, in_ea)
        },
        _ => s,
    }
}

/// The reading after a sequence of siblings, in order.
pub open spec fn md_children(s: MdView, cs: Seq<XmlNode>, in_ea: bool) -> MdView
    decreases cs,
{
    if cs.len() == 0 {
        s
    } else {
        md_node(md_children(s, cs.drop_last(), in_ea), cs.last(), in_ea)
    }
}

/// The opening of a wrapping `md:Extensions` element.
pub const MD_EXTENSIONS_OPEN: &'static str = "<md:Extensions xmlns:md=\"urn:oasis:names:tc:SAML:2.0:metadata\">";

/// The opening of the synthetic root, declaring every prefix the accessors
/// care about.
pub const MD_ROOT_OPEN: &'static str = "<gamlastan-md-root xmlns:md=\"urn:oasis:names:tc:SAML:2.0:metadata\" xmlns:mdrpi=\"urn:oasis:names:tc:SAML:metadata:rpi\" xmlns:mdattr=\"urn:oasis:names:tc:SAML:metadata:attribute\" xmlns:saml=\"urn:oasis:names:tc:SAML:2.0:assertion\" xmlns:mdui=\"urn:oasis:names:tc:SAML:metadata:ui\" xmlns:alg=\"urn:oasis:names:tc:SAML:metadata:algsupport\">";

/// The close of the synthetic root.
pub const MD_ROOT_CLOSE: &'static str = "</gamlastan-md-root>";

/// The document parsed for the trimmed raw XML `t`.
pub open spec fn md_document(t: Seq<char>) -> Seq<char> {
    MD_ROOT_OPEN@ + (if seq_contains(t, "<md:Extensions"@) || seq_contains(t, "<Extensions"@) {
        t
    } else {
        MD_EXTENSIONS_OPEN@ + t + "</md:Extensions>"@
    }) + MD_ROOT_CLOSE@
}

/// What the raw `Extensions` XML reads as: nothing for blank or unparseable
/// XML, else the reading of the synthetic root's children.
pub open spec fn md_reading(raw: Seq<char>) -> MdView {
    let t = trim(raw);
    if t.len() == 0 {
        empty_md()
    } else {
        match parsed_document_element(md_document(t)) {
            None => empty_md(),
            Some(root) => md_children(empty_md(), root.children@, false),
        }
    }
}

// ── The reading, computed ───────────────────────────────────────────────────

impl UiInfo {
    /// A UIInfo with no entries.
    pub fn empty() -> (r: Self)
        ensures
            ui_view(r) == empty_ui(),
    {
        let r = UiInfo {
            display_names: Vec::new(),
            descriptions: Vec::new(),
            information_urls: Vec::new(),
            privacy_statement_urls: Vec::new(),
            keywords: Vec::new(),
            logos: Vec::new(),
        };
        assert(ui_view(r) =~= empty_ui());
        r
    }

    /// Whether this UIInfo carries no entries at all.
    pub fn is_empty(&self) -> (r: bool)
        ensures
            r == (self.display_names.len() == 0 && self.descriptions.len() == 0 && self.information_urls.len() == 0
                && self.privacy_statement_urls.len() == 0 && self.keywords.len() == 0 && self.logos.len() == 0),
    {
        self.display_names.len() == 0 && self.descriptions.len() == 0 && self.information_urls.len() == 0
            && self.privacy_statement_urls.len() == 0 && self.keywords.len() == 0 && self.logos.len() == 0
    }
}

impl Default for UiInfo {
    /// A UIInfo with no entries.
    fn default() -> (r: Self)
        ensures
            ui_view(r) == empty_ui(),
    {
        UiInfo::empty()
    }
}

/// The trimmed character data of element `e` (the element of node `n`).
fn trimmed_text_of(n: &XmlNode, e: &XmlElement) -> (r: String)
    requires
        *n == XmlNode::Element(*e),
    ensures
        r@ == trimmed_text(*e),
{
    let mut text: Vec<char> = Vec::new();
    collect_deep_text(n, &mut text);
    assert(text@ =~= children_deep_text(e.children@));
    let t = trim_chars(text.as_slice());
    string_of(t.as_slice())
}

/// The `xml:lang` of an element.
fn lang_of(e: &XmlElement) -> (r: Option<String>)
    ensures
        opt_string_view(r) == element_lang(*e),
{
    match get_attribute_ns(e, XML_NS, "lang") {
        Some(l) => Some(l),
        None => get_attribute(e, "xml:lang"),
    }
}

/// A numeric attribute of an element.
fn numeric_attribute_of(e: &XmlElement, name: &str) -> (r: Option<u32>)
    ensures
        r == numeric_attribute(*e, name@),
{
    match get_attribute(e, name) {
        Some(v) => parse_u32(v.as_str()),
        None => None,
    }
}

/// Whether `e` is `{ns}local`.
fn element_is_named(e: &XmlElement, ns: &str, local: &str) -> (r: bool)
    ensures
        r == is_element(*e, ns@, local@),
{
    match &e.namespace {
        Some(n) => str_eq(n.as_str(), ns) && str_eq(e.local_name.as_str(), local),
        None => false,
    }
}

/// Reads the children of an `mdui:UIInfo` element.
fn parse_ui_info(e: &XmlElement) -> (r: UiInfo)
    ensures
        ui_view(r) == ui_from_children(e.children@),
{
    let mut info = UiInfo::empty();
    let mut i: usize = 0;
    while i < e.children.len()
        invariant
            i <= e.children.len(),
            ui_view(info) == ui_from_children(e.children@.subrange(0, i as int)),
        decreases e.children.len() - i,
    {
        let child = &e.children[i];
        assert(e.children@.subrange(0, i + 1).drop_last() =~= e.children@.subrange(0, i as int));
        assert(e.children@.subrange(0, i + 1).last() == *child);
        if let XmlNode::Element(ce) = child {
            let in_mdui = match &ce.namespace {
                Some(n) => str_eq(n.as_str(), MDUI_NS),
                None => false,
            };
            if in_mdui {
                let name = ce.local_name.as_str();
                let ghost before = ui_view(info);
                if str_eq(name, "DisplayName") {
                    info.display_names.push(LocalizedText { lang: lang_of(ce), value: trimmed_text_of(child, ce) });
                    assert(texts_view(info.display_names@) =~= before.display_names.push((element_lang(*ce), trimmed_text(*ce))));
                } else if str_eq(name, "Description") {
                    info.descriptions.push(LocalizedText { lang: lang_of(ce), value: trimmed_text_of(child, ce) });
                    assert(texts_view(info.descriptions@) =~= before.descriptions.push((element_lang(*ce), trimmed_text(*ce))));
                } else if str_eq(name, "InformationURL") {
                    info.information_urls.push(LocalizedText { lang: lang_of(ce), value: trimmed_text_of(child, ce) });
                    assert(texts_view(info.information_urls@) =~= before.information_urls.push((element_lang(*ce), trimmed_text(*ce))));
                } else if str_eq(name, "PrivacyStatementURL") {
                    info.privacy_statement_urls.push(
                        LocalizedText { lang: lang_of(ce), value: trimmed_text_of(child, ce) },
                    );
                    assert(texts_view(info.privacy_statement_urls@) =~= before.privacy_statement_urls.push((element_lang(*ce), trimmed_text(*ce))));
                } else if str_eq(name, "Keywords") {
                    info.keywords.push(LocalizedText { lang: lang_of(ce), value: trimmed_text_of(child, ce) });
                    assert(texts_view(info.keywords@) =~= before.keywords.push((element_lang(*ce), trimmed_text(*ce))));
                } else if str_eq(name, "Logo") {
                    info.logos.push(
                        UiLogo {
                            lang: lang_of(ce),
                            width: numeric_attribute_of(ce, "width"),
                            height: numeric_attribute_of(ce, "height"),
                            url: trimmed_text_of(child, ce),
                        },
                    );
                    assert(logos_view(info.logos@) =~= before.logos.push(
                        (element_lang(*ce), numeric_attribute(*ce, "width"@), numeric_attribute(*ce, "height"@), trimmed_text(*ce)),
                    ));
                }
            }
        }
        assert(ui_view(info) =~= ui_from_children(e.children@.subrange(0, i + 1)));
        i = i + 1;
    }
    assert(e.children@.subrange(0, i as int) =~= e.children@);
    info
}

/// The trimmed, non-empty `saml:AttributeValue` texts of an attribute.
fn attribute_values(e: &XmlElement) -> (r: Vec<String>)
    ensures
        strings_view(r@) == saml_attribute_values(e.children@),
{
    let mut out: Vec<String> = Vec::new();
    let mut i: usize = 0;
    while i < e.children.len()
        invariant
            i <= e.children.len(),
            strings_view(out@) == saml_attribute_values(e.children@.subrange(0, i as int)),
        decreases e.children.len() - i,
    {
        let child = &e.children[i];
        let ghost before = out@;
        assert(e.children@.subrange(0, i + 1).drop_last() =~= e.children@.subrange(0, i as int));
        assert(e.children@.subrange(0, i + 1).last() == *child);
        if let XmlNode::Element(v) = child {
            if element_is_named(v, SAML_ASSERTION_NS, "AttributeValue") {
                let t = trimmed_text_of(child, v);
                if t.as_str().unicode_len() > 0 {
                    out.push(t);
                    assert(strings_view(out@) =~= strings_view(before) + seq![trimmed_text(*v)]);
                }
            }
        }
        assert(strings_view(out@) =~= saml_attribute_values(e.children@.subrange(0, i + 1)));
        i = i + 1;
    }
    assert(e.children@.subrange(0, i as int) =~= e.children@);
    out
}

/// Reads the subtree of `n` into `out`.
fn walk(n: &XmlNode, in_ea: bool, out: &mut MdExtensions)
    ensures
        md_view(*final(out)) == md_node(md_view(*old(out)), *n, in_ea),
    decreases n,
{
    match n {
        XmlNode::Element(e) => {
            let ghost s = md_view(*out);
            let mut child_in_ea = in_ea;
            if element_is_named(e, MDRPI_NS, "RegistrationInfo") {
                if out.registration_authority.is_none() {
                    match get_attribute(e, "registrationAuthority") {
                        Some(ra) => {
                            out.registration_authority = Some(ra);
                        },
                        None => {},
                    }
                }
            } else if element_is_named(e, MDATTR_NS, "EntityAttributes") {
                child_in_ea = true;
            } else if in_ea && element_is_named(e, SAML_ASSERTION_NS, "Attribute") {
                match get_attribute(e, "Name") {
                    Some(name) => {
                        let values = attribute_values(e);
                        out.entity_attributes.push((name, values));
                        assert(entity_attributes_view(out.entity_attributes@) =~= s.entity_attributes.push(
                            (attribute_value(e.attributes@, "Name"@)->0, saml_attribute_values(e.children@)),
                        ));
                    },
                    None => {},
                }
            } else if element_is_named(e, MDUI_NS, "UIInfo") {
                if out.ui_info.is_none() {
                    out.ui_info = Some(parse_ui_info(e));
                }
                return;
            } else if element_is_named(e, ALGSUPPORT_NS, "SigningMethod") {
                match get_attribute(e, "Algorithm") {
                    Some(a) => {
                        out.signing_methods.push(a);
                        assert(strings_view(out.signing_methods@) =~= s.signing_methods.push(
                            attribute_value(e.attributes@, "Algorithm"@)->0,
                        ));
                    },
                    None => {},
                }
            } else if element_is_named(e, ALGSUPPORT_NS, "DigestMethod") {
                match get_attribute(e, "Algorithm") {
                    Some(a) => {
                        out.digest_methods.push(a);
                        assert(strings_view(out.digest_methods@) =~= s.digest_methods.push(
                            attribute_value(e.attributes@, "Algorithm"@)->0,
                        ));
                    },
                    None => {},
                }
            }
            walk_children(n, e, child_in_ea, out);
        },
        _ => {},
    }
}

/// Reads the children of element `e` (the element of node `n`) into `out`.
fn walk_children(n: &XmlNode, e: &XmlElement, in_ea: bool, out: &mut MdExtensions)
    requires
        *n == XmlNode::Element(*e),
    ensures
        md_view(*final(out)) == md_children(md_view(*old(out)), e.children@, in_ea),
    decreases n, 0nat,
{
    let ghost start = md_view(*out);
    let mut i: usize = 0;
    while i < e.children.len()
        invariant
            *n == XmlNode::Element(*e),
            i <= e.children.len(),
            md_view(*out) == md_children(start, e.children@.subrange(0, i as int), in_ea),
        decreases e.children.len() - i,
    {
        assert(e.children@.subrange(0, i + 1).drop_last() =~= e.children@.subrange(0, i as int));
        proof {
            assert(decreases_to!(*n => (*n)->Element_0));
            assert((*n)->Element_0 == *e);
            assert(decreases_to!(*e => e.children));
            assert(decreases_to!(e.children => e.children@));
            assert(decreases_to!(e.children@ => e.children@[i as int]));
        }
        walk(&e.children[i], in_ea, out);
        i = i + 1;
    }
    assert(e.children@.subrange(0, i as int) =~= e.children@);
}

/// The values of the entries named `name`, in order.
pub open spec fn values_named(ea: Seq<(Seq<char>, Seq<Seq<char>>)>, name: Seq<char>) -> Seq<Seq<char>>
    decreases ea.len(),
{
    if ea.len() == 0 {
        Seq::empty()
    } else {
        values_named(ea.drop_last(), name) + if ea.last().0 == name {
            ea.last().1
        } else {
            Seq::empty()
        }
    }
}

impl MdExtensions {
    /// Nothing read.
    pub fn empty() -> (r: Self)
        ensures
            md_view(r) == empty_md(),
    {
        let r = MdExtensions {
            registration_authority: None,
            entity_attributes: Vec::new(),
            ui_info: None,
            signing_methods: Vec::new(),
            digest_methods: Vec::new(),
        };
        assert(md_view(r) =~= empty_md());
        r
    }

    /// Parse the relevant extensions out of an [`Extensions`] container.
    pub fn from_extensions(ext: &Extensions) -> (r: Self)
        ensures
            md_view(r) == md_reading(ext.raw_xml@),
    {
        Self::parse(ext.raw_xml.as_str())
    }

    /// Parse from raw `Extensions` XML (either the full `<md:Extensions>`
    /// element or just its child elements). Blank or malformed XML reads as
    /// empty (fail-soft: no signal, never an error).
    pub fn parse(raw_xml: &str) -> (r: Self)
        ensures
            md_view(r) == md_reading(raw_xml@),
    {
        let mut out = MdExtensions::empty();
        let cs = chars_of(raw_xml);
        let trimmed_chars = trim_chars(cs.as_slice());
        if trimmed_chars.len() == 0 {
            return out;
        }
        let trimmed = string_of(trimmed_chars.as_slice());
        let mut full = to_owned_string(MD_ROOT_OPEN);
        if str_contains(trimmed.as_str(), "<md:Extensions") || str_contains(trimmed.as_str(), "<Extensions") {
            push_str(&mut full, trimmed.as_str());
        } else {
            push_str(&mut full, MD_EXTENSIONS_OPEN);
            push_str(&mut full, trimmed.as_str());
            push_str(&mut full, "</md:Extensions>");
        }
        push_str(&mut full, MD_ROOT_CLOSE);
        assert(full@ =~= md_document(trim(raw_xml@)));
        match parse_xml(full.as_str()) {
            Some(root) => Self::from_parsed_root(root),
            None => out,
        }
    }

    /// Reads the parsed wrapper document `root`: its children, outside any
    /// `mdattr:EntityAttributes`.
    pub fn from_parsed_root(root: XmlElement) -> (r: Self)
        ensures
            md_view(r) == md_children(empty_md(), root.children@, false),
    {
        let mut out = MdExtensions::empty();
        let node = XmlNode::Element(root);
        if let XmlNode::Element(re) = &node {
            walk_children(&node, re, false, &mut out);
        }
        out
    }

    /// All values of the entity attribute named `name` (across every matching
    /// `saml:Attribute`), in order.
    pub fn entity_attribute_values(&self, name: &str) -> (r: Vec<String>)
        ensures
            strings_view(r@) == values_named(entity_attributes_view(self.entity_attributes@), name@),
    {
        let ghost ea = entity_attributes_view(self.entity_attributes@);
        let mut out: Vec<String> = Vec::new();
        let mut i: usize = 0;
        while i < self.entity_attributes.len()
            invariant
                i <= self.entity_attributes.len(),
                ea == entity_attributes_view(self.entity_attributes@),
                strings_view(out@) == values_named(ea.subrange(0, i as int), name@),
            decreases self.entity_attributes.len() - i,
        {
            let (n, values) = &self.entity_attributes[i];
            assert(ea.subrange(0, i + 1).drop_last() =~= ea.subrange(0, i as int));
            assert(ea.subrange(0, i + 1).last() == (n@, strings_view(values@)));
            if str_eq(n.as_str(), name) {
                let ghost before = out@;
                let mut j: usize = 0;
                while j < values.len()
                    invariant
                        j <= values.len(),
                        strings_view(out@) == strings_view(before) + strings_view(values@).subrange(0, j as int),
                    decreases values.len() - j,
                {
                    let ghost prev = out@;
                    let c = to_owned_string(values[j].as_str());
                    out.push(c);
                    proof {
                        crate::text::lemma_strings_view_push(prev, c);
                        assert(strings_view(values@).subrange(0, j + 1) =~= strings_view(values@).subrange(0, j as int).push(values@[j as int]@));
                    }
                    assert(strings_view(out@) =~= strings_view(before) + strings_view(values@).subrange(0, j + 1));
                    j = j + 1;
                }
                assert(strings_view(values@).subrange(0, j as int) =~= strings_view(values@));
            }
            assert(strings_view(out@) =~= values_named(ea.subrange(0, i + 1), name@));
            i = i + 1;
        }
        assert(ea.subrange(0, i as int) =~= ea);
        out
    }

    /// The SP's published entity-category URIs
    /// (`http://macedir.org/entity-category`).
    pub fn entity_categories(&self) -> (r: Vec<String>)
        ensures
            strings_view(r@) == values_named(entity_attributes_view(self.entity_attributes@), ENTITY_CATEGORY_ATTR@),
    {
        self.entity_attribute_values(ENTITY_CATEGORY_ATTR)
    }

    /// All advertised algorithm URIs: every `alg:SigningMethod` first, then
    /// every `alg:DigestMethod`, each group in its own document order.
    pub fn supported_algorithms(&self) -> (r: Vec<String>)
        ensures
            strings_view(r@) == strings_view(self.signing_methods@) + strings_view(self.digest_methods@),
    {
        let mut out = strings_clone(self.signing_methods.as_slice());
        let mut rest = strings_clone(self.digest_methods.as_slice());
        let ghost a = out@;
        let ghost b = rest@;
        out.append(&mut rest);
        assert(out@ == a + b);
        assert(strings_view(out@) =~= strings_view(a) + strings_view(b));
        out
    }
}

impl Default for MdExtensions {
    /// Nothing read.
    fn default() -> (r: Self)
        ensures
            md_view(r) == empty_md(),
    {
        MdExtensions::empty()
    }
}

} // verus!
