//! PrincipalSelection / RequestedPrincipalSelection extensions [SC.Principal],
//! sections 5.3.3 and 2.1.3.

use vstd::prelude::*;
use crate::metadata::types::extensions::Extensions;
use crate::text::{opt_string_view, push_str, to_owned_string};
use crate::markup::{empty_tag, end_tag, escaped_text, pairs_view, start_tag, MarkupWriter};
use super::constants;

verus! {

/// A single `<psc:MatchValue>` carrying a known attribute value for the
/// principal that is about to be authenticated.
#[derive(Debug, Clone, PartialEq, Eq)]
pub struct MatchValue {
    /// The attribute `Name` (e.g. the personal identity number OID).
    pub name: String,
    /// The attribute `NameFormat` (defaults to the URI format when omitted).
    pub name_format: Option<String>,
    /// The known attribute value.
    pub value: String,
}

/// The `Name` and, when present, `NameFormat` attributes.
pub open spec fn name_attrs(name: Seq<char>, name_format: Option<Seq<char>>) -> Seq<(Seq<char>, Seq<char>)> {
    seq![("Name"@, name)] + match name_format {
        Some(nf) => seq![("NameFormat"@, nf)],
        None => Seq::empty(),
    }
}

/// The serialized `<psc:MatchValue>` of a match value.
pub open spec fn match_value_xml(mv: MatchValue) -> Seq<char> {
    start_tag("psc:MatchValue"@, name_attrs(mv.name@, opt_string_view(mv.name_format))) + escaped_text(mv.value@)
        + end_tag("psc:MatchValue"@)
}

/// The serialized match values, in order.
pub open spec fn match_values_xml(mvs: Seq<MatchValue>) -> Seq<char>
    decreases mvs.len(),
{
    if mvs.len() == 0 {
        Seq::empty()
    } else {
        match_values_xml(mvs.drop_last()) + match_value_xml(mvs.last())
    }
}

/// The `xmlns:psc` declaration.
pub open spec fn psc_ns_attrs() -> Seq<(Seq<char>, Seq<char>)> {
    seq![("xmlns:psc"@, constants::NS_PSC@)]
}

/// Writes the `Name`/`NameFormat` attribute pairs for an element.
fn name_attr_pairs<'a>(name: &'a str, name_format: &'a Option<String>) -> (r: Vec<(&'a str, &'a str)>)
    ensures
        pairs_view(r@) == name_attrs(name@, opt_string_view(*name_format)),
{
    let mut attrs: Vec<(&str, &str)> = Vec::new();
    attrs.push(("Name", name));
    if let Some(nf) = name_format {
        attrs.push(("NameFormat", nf.as_str()));
    }
    assert(pairs_view(attrs@) =~= name_attrs(name@, opt_string_view(*name_format)));
    attrs
}

impl MatchValue {
    /// Convenience constructor for a URI-format match value.
    pub fn new(name: &str, value: &str) -> (r: Self)
        ensures
            r.name@ == name@,
            opt_string_view(r.name_format) == Some(constants::ATTRNAME_FORMAT_URI@),
            r.value@ == value@,
    {
        MatchValue {
            name: to_owned_string(name),
            name_format: Some(to_owned_string(constants::ATTRNAME_FORMAT_URI)),
            value: to_owned_string(value),
        }
    }

    /// A match value for the Swedish personal identity number.
    pub fn personal_identity_number(value: &str) -> (r: Self)
        ensures
            r.name@ == constants::ATTR_PERSONAL_IDENTITY_NUMBER@,
            opt_string_view(r.name_format) == Some(constants::ATTRNAME_FORMAT_URI@),
            r.value@ == value@,
    {
        MatchValue::new(constants::ATTR_PERSONAL_IDENTITY_NUMBER, value)
    }

    /// A match value for the country code (used to bypass the eIDAS country
    /// selection dialogue, section 5.3.2 note).
    pub fn country(code: &str) -> (r: Self)
        ensures
            r.name@ == constants::ATTR_C@,
            opt_string_view(r.name_format) == Some(constants::ATTRNAME_FORMAT_URI@),
            r.value@ == code@,
    {
        MatchValue::new(constants::ATTR_C, code)
    }

    /// Appends the serialized `<psc:MatchValue>` to `out`: the name in an
    /// escaped attribute, the value as escaped element text.
    pub fn write(&self, out: &mut String)
        ensures
            final(out)@ == old(out)@ + match_value_xml(*self),
    {
        let mut w = MarkupWriter::new();
        let attrs = name_attr_pairs(self.name.as_str(), &self.name_format);
        w.start_element("psc:MatchValue", attrs.as_slice());
        w.text(self.value.as_str());
        w.end_element("psc:MatchValue");
        let s = w.into_string();
        push_str(out, s.as_str());
        assert(s@ =~= match_value_xml(*self));
    }
}

/// The `<psc:PrincipalSelection>` `<saml2p:AuthnRequest>` extension.
#[derive(Debug, Clone, PartialEq, Eq, Default)]
pub struct PrincipalSelection {
    /// The known attribute values for the principal.
    pub match_values: Vec<MatchValue>,
}

/// The serialized `<psc:PrincipalSelection>`.
pub open spec fn principal_selection_xml(ps: PrincipalSelection) -> Seq<char> {
    start_tag("psc:PrincipalSelection"@, psc_ns_attrs()) + match_values_xml(ps.match_values@) + end_tag(
        "psc:PrincipalSelection"@,
    )
}

impl PrincipalSelection {
    /// Create a principal selection from a set of match values.
    pub fn new(match_values: Vec<MatchValue>) -> (r: Self)
        ensures
            r.match_values == match_values,
    {
        PrincipalSelection { match_values }
    }

    /// Serialize the `<psc:PrincipalSelection>` element (namespace-qualified),
    /// to be placed inside the `<saml2p:Extensions>` of an `AuthnRequest`.
    pub fn to_xml_string(&self) -> (r: String)
        ensures
            r@ == principal_selection_xml(*self),
    {
        let mut w = MarkupWriter::new();
        let ns: [(&str, &str); 1] = [("xmlns:psc", constants::NS_PSC)];
        assert(pairs_view(ns@) =~= psc_ns_attrs());
        w.start_element("psc:PrincipalSelection", &ns);
        let mut out = w.into_string();
        let ghost head = out@;
        let mut i: usize = 0;
        while i < self.match_values.len()
            invariant
                i <= self.match_values.len(),
                out@ == head + match_values_xml(self.match_values@.subrange(0, i as int)),
            decreases self.match_values.len() - i,
        {
            self.match_values[i].write(&mut out);
            assert(self.match_values@.subrange(0, i + 1).drop_last() =~= self.match_values@.subrange(0, i as int));
            i = i + 1;
        }
        assert(self.match_values@.subrange(0, i as int) =~= self.match_values@);
        let mut w2 = MarkupWriter::new();
        w2.end_element("psc:PrincipalSelection");
        let tail = w2.into_string();
        push_str(&mut out, tail.as_str());
        assert(out@ =~= principal_selection_xml(*self));
        out
    }
}

/// The `<psc:RequestedPrincipalSelection>` metadata extension, declared by an
/// IdP under its `<md:IDPSSODescriptor>` to advertise which attributes it wants
/// to receive in a `PrincipalSelection` (section 2.1.3).
#[derive(Debug, Clone, PartialEq, Eq, Default)]
pub struct RequestedPrincipalSelection {
    /// The attributes the IdP wants the requester to supply, as
    /// `(Name, NameFormat)` pairs.
    pub match_attributes: Vec<(String, Option<String>)>,
}

/// The serialized empty `<psc:MatchValue/>` elements, in order.
pub open spec fn match_attributes_xml(attrs: Seq<(String, Option<String>)>) -> Seq<char>
    decreases attrs.len(),
{
    if attrs.len() == 0 {
        Seq::empty()
    } else {
        match_attributes_xml(attrs.drop_last()) + empty_tag(
            "psc:MatchValue"@,
            name_attrs(attrs.last().0@, opt_string_view(attrs.last().1)),
        )
    }
}

/// The serialized `<psc:RequestedPrincipalSelection>`.
pub open spec fn requested_principal_selection_xml(r: RequestedPrincipalSelection) -> Seq<char> {
    start_tag("psc:RequestedPrincipalSelection"@, psc_ns_attrs()) + match_attributes_xml(r.match_attributes@)
        + end_tag("psc:RequestedPrincipalSelection"@)
}

impl RequestedPrincipalSelection {
    /// Serialize the `<psc:RequestedPrincipalSelection>` element.
    pub fn to_xml_string(&self) -> (r: String)
        ensures
            r@ == requested_principal_selection_xml(*self),
    {
        let mut w = MarkupWriter::new();
        let ns: [(&str, &str); 1] = [("xmlns:psc", constants::NS_PSC)];
        assert(pairs_view(ns@) =~= psc_ns_attrs());
        w.start_element("psc:RequestedPrincipalSelection", &ns);
        let ghost head = w@;
        let mut i: usize = 0;
        while i < self.match_attributes.len()
            invariant
                i <= self.match_attributes.len(),
                w@ == head + match_attributes_xml(self.match_attributes@.subrange(0, i as int)),
            decreases self.match_attributes.len() - i,
        {
            let (name, name_format) = &self.match_attributes[i];
            let attrs = name_attr_pairs(name.as_str(), name_format);
            w.empty_element("psc:MatchValue", attrs.as_slice());
            assert(self.match_attributes@.subrange(0, i + 1).drop_last() =~= self.match_attributes@.subrange(
                0,
                i as int,
            ));
            i = i + 1;
        }
        assert(self.match_attributes@.subrange(0, i as int) =~= self.match_attributes@);
        w.end_element("psc:RequestedPrincipalSelection");
        let r = w.into_string();
        assert(r@ =~= requested_principal_selection_xml(*self));
        r
    }

    /// Wrap this extension in an `<md:Extensions>` container for placement under
    /// an `<md:IDPSSODescriptor>`.
    pub fn to_extensions(&self) -> (r: Extensions)
        ensures
            r.raw_xml@ == "<md:Extensions>"@ + requested_principal_selection_xml(*self) + "</md:Extensions>"@,
    {
        let mut s = to_owned_string("<md:Extensions>");
        let inner = self.to_xml_string();
        push_str(&mut s, inner.as_str());
        push_str(&mut s, "</md:Extensions>");
        Extensions::new(s.as_str())
    }
}

} // verus!
