//! `md:AffiliationDescriptor` (saml-metadata-2.0-os section 2.5): entities
//! grouped under a common affiliation identifier.
//!
//! Instants are nanoseconds since the Unix epoch.

use vstd::prelude::*;
use super::contact::{extensions_copied, extensions_to_owned};
use super::extensions::Extensions;
use super::key_descriptor::{KeyDescriptor, KeyDescriptorRef};
use super::role_descriptor::key_descriptors_copied;
use crate::text::{opt_str_to_owned, opt_str_view, opt_string_view, strings_view, strs_to_strings, strs_view, to_owned_string};

verus! {

/// Borrowed affiliation descriptor.
#[derive(Debug, Clone, PartialEq)]
pub struct AffiliationDescriptorRef<'a> {
    /// Affiliation owner entity ID (required).
    pub affiliation_owner_id: &'a str,
    /// Optional ID attribute.
    pub id: Option<&'a str>,
    /// Optional valid-until instant.
    pub valid_until: Option<i128>,
    /// Optional cache duration (ISO 8601 duration string).
    pub cache_duration: Option<&'a str>,
    /// Whether this descriptor has a signature.
    pub has_signature: bool,
    /// The raw XML of the `Extensions`, if any.
    pub extensions: Option<&'a str>,
    /// Affiliate members (1..n, entity IDs).
    pub affiliate_members: Vec<&'a str>,
    /// Key descriptors (0..n).
    pub key_descriptors: Vec<KeyDescriptorRef<'a>>,
}

/// Owned affiliation descriptor.
#[derive(Debug, Clone, PartialEq)]
pub struct AffiliationDescriptor {
    /// Affiliation owner entity ID (required).
    pub affiliation_owner_id: String,
    /// Optional ID attribute.
    pub id: Option<String>,
    /// Optional valid-until instant.
    pub valid_until: Option<i128>,
    /// Optional cache duration (ISO 8601 duration string).
    pub cache_duration: Option<String>,
    /// Whether this descriptor has a signature.
    pub has_signature: bool,
    /// Optional extensions.
    pub extensions: Option<Extensions>,
    /// Affiliate members (1..n, entity IDs).
    pub affiliate_members: Vec<String>,
    /// Key descriptors (0..n).
    pub key_descriptors: Vec<KeyDescriptor>,
}

/// An affiliation descriptor and its owned copy agree field by field.
pub open spec fn affiliation_copied(a: AffiliationDescriptorRef, b: AffiliationDescriptor) -> bool {
    &&& a.affiliation_owner_id@ == b.affiliation_owner_id@
    &&& opt_str_view(a.id) == opt_string_view(b.id)
    &&& a.valid_until == b.valid_until
    &&& opt_str_view(a.cache_duration) == opt_string_view(b.cache_duration)
    &&& a.has_signature == b.has_signature
    &&& extensions_copied(a.extensions, b.extensions)
    &&& strs_view(a.affiliate_members@) == strings_view(b.affiliate_members@)
    &&& key_descriptors_copied(a.key_descriptors@, b.key_descriptors@)
}

impl<'a> AffiliationDescriptorRef<'a> {
    /// Convert to owned AffiliationDescriptor.
    pub fn to_owned(&self) -> (r: AffiliationDescriptor)
        ensures
            affiliation_copied(*self, r),
    {
        let mut kds: Vec<KeyDescriptor> = Vec::new();
        let mut i: usize = 0;
        while i < self.key_descriptors.len()
            invariant
                i <= self.key_descriptors.len(),
                kds.len() == i,
                forall|k: int| 0 <= k < i ==> {
                    &&& (#[trigger] self.key_descriptors@[k]).use_ == kds@[k].use_
                    &&& self.key_descriptors@[k].key_info_xml@ == kds@[k].key_info_xml@
                    &&& self.key_descriptors@[k].encryption_methods.len() == kds@[k].encryption_methods.len()
                },
            decreases self.key_descriptors.len() - i,
        {
            kds.push(self.key_descriptors[i].to_owned());
            i = i + 1;
        }
        AffiliationDescriptor {
            affiliation_owner_id: to_owned_string(self.affiliation_owner_id),
            id: opt_str_to_owned(self.id),
            valid_until: self.valid_until,
            cache_duration: opt_str_to_owned(self.cache_duration),
            has_signature: self.has_signature,
            extensions: extensions_to_owned(self.extensions),
            affiliate_members: strs_to_strings(&self.affiliate_members),
            key_descriptors: kds,
        }
    }
}

} // verus!
