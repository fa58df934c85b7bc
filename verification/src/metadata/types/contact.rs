//! `md:ContactPerson` (saml-metadata-2.0-os section 2.3.2.2).

use vstd::prelude::*;
use super::extensions::Extensions;
use crate::text::{opt_str_to_owned, opt_str_view, opt_string_view, strings_view, strs_to_strings, strs_view};

verus! {

/// The `contactType` of a contact person.
#[derive(Debug, Clone, Copy, PartialEq, Eq)]
pub enum ContactType {
    /// `technical`.
    Technical,
    /// `support`.
    Support,
    /// `administrative`.
    Administrative,
    /// `billing`.
    Billing,
    /// `other`.
    Other,
}

/// The attribute value of a contact type.
pub open spec fn contact_type_text(t: ContactType) -> Seq<char> {
    match t {
        ContactType::Technical => "technical"@,
        ContactType::Support => "support"@,
        ContactType::Administrative => "administrative"@,
        ContactType::Billing => "billing"@,
        ContactType::Other => "other"@,
    }
}

impl ContactType {
    /// The `contactType` attribute value.
    pub fn as_str(&self) -> (r: &'static str)
        ensures
            r@ == contact_type_text(*self),
    {
        match self {
            ContactType::Technical => "technical",
            ContactType::Support => "support",
            ContactType::Administrative => "administrative",
            ContactType::Billing => "billing",
            ContactType::Other => "other",
        }
    }
}

/// Borrowed contact person.
#[derive(Debug, Clone, PartialEq)]
pub struct ContactPersonRef<'a> {
    /// The kind of contact.
    pub contact_type: ContactType,
    /// The raw XML of the contact's `Extensions`, if any.
    pub extensions: Option<&'a str>,
    /// `md:Company`.
    pub company: Option<&'a str>,
    /// `md:GivenName`.
    pub given_name: Option<&'a str>,
    /// `md:SurName`.
    pub sur_name: Option<&'a str>,
    /// `md:EmailAddress` values (0..n).
    pub email_addresses: Vec<&'a str>,
    /// `md:TelephoneNumber` values (0..n).
    pub telephone_numbers: Vec<&'a str>,
}

/// Owned contact person.
#[derive(Debug, Clone, PartialEq)]
pub struct ContactPerson {
    /// The kind of contact.
    pub contact_type: ContactType,
    /// The contact's `Extensions`, if any.
    pub extensions: Option<Extensions>,
    /// `md:Company`.
    pub company: Option<String>,
    /// `md:GivenName`.
    pub given_name: Option<String>,
    /// `md:SurName`.
    pub sur_name: Option<String>,
    /// `md:EmailAddress` values (0..n).
    pub email_addresses: Vec<String>,
    /// `md:TelephoneNumber` values (0..n).
    pub telephone_numbers: Vec<String>,
}

/// Borrowed and owned extensions agree.
pub open spec fn extensions_copied(a: Option<&str>, b: Option<Extensions>) -> bool {
    match (a, b) {
        (Some(x), Some(e)) => x@ == e.raw_xml@,
        (None, None) => true,
        _ => false,
    }
}

/// Owned extensions holding the borrowed raw XML.
pub fn extensions_to_owned(a: Option<&str>) -> (r: Option<Extensions>)
    ensures
        extensions_copied(a, r),
{
    match a {
        Some(x) => Some(Extensions::new(x)),
        None => None,
    }
}

/// A contact person and its owned copy agree field by field.
pub open spec fn contact_copied(a: ContactPersonRef, b: ContactPerson) -> bool {
    &&& a.contact_type == b.contact_type
    &&& extensions_copied(a.extensions, b.extensions)
    &&& opt_str_view(a.company) == opt_string_view(b.company)
    &&& opt_str_view(a.given_name) == opt_string_view(b.given_name)
    &&& opt_str_view(a.sur_name) == opt_string_view(b.sur_name)
    &&& strs_view(a.email_addresses@) == strings_view(b.email_addresses@)
    &&& strs_view(a.telephone_numbers@) == strings_view(b.telephone_numbers@)
}

/// Every contact person of a list was copied, in order.
pub open spec fn contacts_copied(a: Seq<ContactPersonRef>, b: Seq<ContactPerson>) -> bool {
    a.len() == b.len() && forall|i: int| 0 <= i < a.len() ==> contact_copied(#[trigger] a[i], b[i])
}

impl<'a> ContactPersonRef<'a> {
    /// Convert to owned ContactPerson.
    pub fn to_owned(&self) -> (r: ContactPerson)
        ensures
            contact_copied(*self, r),
    {
        ContactPerson {
            contact_type: self.contact_type,
            extensions: extensions_to_owned(self.extensions),
            company: opt_str_to_owned(self.company),
            given_name: opt_str_to_owned(self.given_name),
            sur_name: opt_str_to_owned(self.sur_name),
            email_addresses: strs_to_strings(&self.email_addresses),
            telephone_numbers: strs_to_strings(&self.telephone_numbers),
        }
    }
}

/// Owned copies of a list of contact persons.
pub fn contacts_to_owned(v: &Vec<ContactPersonRef>) -> (r: Vec<ContactPerson>)
    ensures
        contacts_copied(v@, r@),
{
    let mut out: Vec<ContactPerson> = Vec::new();
    let mut i: usize = 0;
    while i < v.len()
        invariant
            i <= v.len(),
            out.len() == i,
            forall|k: int| 0 <= k < i ==> contact_copied(#[trigger] v@[k], out@[k]),
        decreases v.len() - i,
    {
        out.push(v[i].to_owned());
        i = i + 1;
    }
    out
}

} // verus!
