//! SAML assertion elements: attributes and authentication statements.

use vstd::prelude::*;
use crate::text::{opt_str_to_owned, opt_str_view, opt_string_view, strings_clone, strings_view, strs_to_strings, strs_view, to_owned_string};
use crate::protocol::opt_string_clone;

verus! {

/// Borrowed attribute - references parsed XML.
#[derive(Debug, Clone, PartialEq)]
pub struct AttributeRef<'a> {
    /// The attribute `Name`.
    pub name: &'a str,
    /// The attribute `NameFormat`, if any.
    pub name_format: Option<&'a str>,
    /// The attribute `FriendlyName`, if any.
    pub friendly_name: Option<&'a str>,
    /// The text of the `AttributeValue` children.
    pub values: Vec<&'a str>,
}

/// Owned attribute.
#[derive(Debug, Clone, PartialEq)]
pub struct Attribute {
    /// The attribute `Name`.
    pub name: String,
    /// The attribute `NameFormat`, if any.
    pub name_format: Option<String>,
    /// The attribute `FriendlyName`, if any.
    pub friendly_name: Option<String>,
    /// The text of the `AttributeValue` children.
    pub values: Vec<String>,
}

/// An attribute and its owned copy agree field by field.
pub open spec fn attribute_copied(a: AttributeRef, b: Attribute) -> bool {
    &&& a.name@ == b.name@
    &&& opt_str_view(a.name_format) == opt_string_view(b.name_format)
    &&& opt_str_view(a.friendly_name) == opt_string_view(b.friendly_name)
    &&& strs_view(a.values@) == strings_view(b.values@)
}

/// Every attribute of a list was copied, in order.
pub open spec fn attributes_copied(a: Seq<AttributeRef>, b: Seq<Attribute>) -> bool {
    a.len() == b.len() && forall|i: int| 0 <= i < a.len() ==> attribute_copied(#[trigger] a[i], b[i])
}

impl<'a> AttributeRef<'a> {
    /// Convert to an owned Attribute.
    pub fn to_owned(&self) -> (r: Attribute)
        ensures
            attribute_copied(*self, r),
    {
        Attribute {
            name: to_owned_string(self.name),
            name_format: opt_str_to_owned(self.name_format),
            friendly_name: opt_str_to_owned(self.friendly_name),
            values: strs_to_strings(&self.values),
        }
    }
}

/// Owned copies of a list of attributes.
pub fn attributes_to_owned(v: &Vec<AttributeRef>) -> (r: Vec<Attribute>)
    ensures
        attributes_copied(v@, r@),
{
    let mut out: Vec<Attribute> = Vec::new();
    let mut i: usize = 0;
    while i < v.len()
        invariant
            i <= v.len(),
            out.len() == i,
            forall|k: int| 0 <= k < i ==> attribute_copied(#[trigger] v@[k], out@[k]),
        decreases v.len() - i,
    {
        out.push(v[i].to_owned());
        i = i + 1;
    }
    out
}

/// Two attributes agree field by field.
pub open spec fn same_attribute(a: Attribute, b: Attribute) -> bool {
    &&& a.name@ == b.name@
    &&& opt_string_view(a.name_format) == opt_string_view(b.name_format)
    &&& opt_string_view(a.friendly_name) == opt_string_view(b.friendly_name)
    &&& strings_view(a.values@) == strings_view(b.values@)
}

impl Attribute {
    /// A copy with the same field values.
    pub fn duplicate(&self) -> (r: Attribute)
        ensures
            same_attribute(r, *self),
    {
        Attribute {
            name: to_owned_string(self.name.as_str()),
            name_format: opt_string_clone(&self.name_format),
            friendly_name: opt_string_clone(&self.friendly_name),
            values: strings_clone(self.values.as_slice()),
        }
    }
}

/// Copies of a list of attributes, in order.
pub fn duplicate_attributes(v: &[Attribute]) -> (r: Vec<Attribute>)
    ensures
        crate::profiles::sso::web_browser::same_attributes(r@, v@),
{
    let mut out: Vec<Attribute> = Vec::new();
    let mut i: usize = 0;
    while i < v.len()
        invariant
            i <= v.len(),
            out@.len() == i,
            forall|k: int| 0 <= k < i ==> same_attribute(#[trigger] out@[k], v@[k]),
        decreases v.len() - i,
    {
        out.push(v[i].duplicate());
        i = i + 1;
    }
    out
}

/// `<saml:AttributeStatement>`.
#[derive(Debug, Clone)]
pub struct AttributeStatement {
    /// The attributes, in document order.
    pub attributes: Vec<Attribute>,
}

/// `<saml:AuthnContext>`.
#[derive(Debug, Clone)]
pub struct AuthnContext {
    /// The authentication context class reference, if any.
    pub authn_context_class_ref: Option<String>,
    /// The authentication context declaration reference, if any.
    pub authn_context_decl_ref: Option<String>,
    /// The authenticating authorities (proxied authentication).
    pub authenticating_authorities: Vec<String>,
}

/// `<saml:AuthnStatement>`; instants are nanoseconds since the Unix epoch.
#[derive(Debug, Clone)]
pub struct AuthnStatement {
    /// When the principal authenticated.
    pub authn_instant: i128,
    /// The session index, if any.
    pub session_index: Option<String>,
    /// When the session ends, if stated.
    pub session_not_on_or_after: Option<i128>,
    /// The `<saml:SubjectLocality>` address, if any.
    pub subject_locality: Option<String>,
    /// The authentication context.
    pub authn_context: AuthnContext,
}

/// Confirmation method: the bearer of the assertion is the subject.
pub const CM_BEARER: &'static str = "urn:oasis:names:tc:SAML:2.0:cm:bearer";

/// Confirmation method: the presenter proves possession of the subject's key.
pub const CM_HOLDER_OF_KEY: &'static str = "urn:oasis:names:tc:SAML:2.0:cm:holder-of-key";

/// Confirmation method: the sender vouches for the subject.
pub const CM_SENDER_VOUCHES: &'static str = "urn:oasis:names:tc:SAML:2.0:cm:sender-vouches";

/// `<saml:SubjectConfirmationData>`; instants are nanoseconds since the epoch.
#[derive(Debug, Clone)]
pub struct SubjectConfirmationData {
    /// `NotBefore`, if stated.
    pub not_before: Option<i128>,
    /// `NotOnOrAfter`, if stated.
    pub not_on_or_after: Option<i128>,
    /// `Recipient`, if stated.
    pub recipient: Option<String>,
    /// `InResponseTo`, if stated.
    pub in_response_to: Option<String>,
    /// `Address`, if stated.
    pub address: Option<String>,
    /// The base64 `ds:X509Certificate` values of the `ds:KeyInfo` children
    /// (holder-of-key confirmation).
    pub key_info_x509_certs: Vec<String>,
}

/// `<saml:SubjectConfirmation>`.
#[derive(Debug, Clone)]
pub struct SubjectConfirmation {
    /// The confirmation method URI.
    pub method: String,
    /// The name identifier of the confirming entity, if any.
    pub name_id: Option<crate::protocol::NameId>,
    /// The confirmation data, if any.
    pub subject_confirmation_data: Option<SubjectConfirmationData>,
}

/// The three confirmation methods are distinct.
pub proof fn lemma_confirmation_methods_distinct()
    ensures
        CM_BEARER@ != CM_HOLDER_OF_KEY@,
        CM_BEARER@ != CM_SENDER_VOUCHES@,
        CM_HOLDER_OF_KEY@ != CM_SENDER_VOUCHES@,
{
    reveal_strlit("urn:oasis:names:tc:SAML:2.0:cm:bearer");
    reveal_strlit("urn:oasis:names:tc:SAML:2.0:cm:holder-of-key");
    reveal_strlit("urn:oasis:names:tc:SAML:2.0:cm:sender-vouches");
    assert(CM_BEARER@.len() != CM_HOLDER_OF_KEY@.len());
    assert(CM_BEARER@.len() != CM_SENDER_VOUCHES@.len());
    assert(CM_HOLDER_OF_KEY@.len() != CM_SENDER_VOUCHES@.len());
}

} // verus!
