//! The fields shared by role descriptors (saml-metadata-2.0-os section
//! 2.4.1) and by SSO descriptors (section 2.4.2).

use vstd::prelude::*;
use super::endpoint::{
    endpoints_copied, endpoints_to_owned, indexed_endpoints_copied, indexed_endpoints_to_owned, Endpoint,
    EndpointRef, IndexedEndpoint, IndexedEndpointRef,
};
use super::contact::{contacts_copied, contacts_to_owned, ContactPerson, ContactPersonRef};
use super::extensions::Extensions;
use super::key_descriptor::{KeyDescriptor, KeyDescriptorRef};
use super::organization::{organization_copied, Organization, OrganizationRef};
use crate::text::{opt_str_to_owned, opt_str_view, opt_string_view, strings_view, strs_to_strings, strs_view};

verus! {

/// Borrowed role descriptor base fields.
#[derive(Debug, Clone, PartialEq)]
pub struct RoleDescriptorBaseRef<'a> {
    /// The optional `ID`.
    pub id: Option<&'a str>,
    /// The optional `validUntil` instant (nanoseconds since the Unix epoch).
    pub valid_until: Option<i128>,
    /// The optional `cacheDuration` (ISO 8601 duration string).
    pub cache_duration: Option<&'a str>,
    /// `protocolSupportEnumeration` URIs (1..n).
    pub protocol_support_enumeration: Vec<&'a str>,
    /// The optional `errorURL`.
    pub error_url: Option<&'a str>,
    /// Key descriptors (0..n).
    pub key_descriptors: Vec<KeyDescriptorRef<'a>>,
    /// The optional `md:Organization`.
    pub organization: Option<OrganizationRef<'a>>,
    /// Contact persons (0..n).
    pub contact_persons: Vec<ContactPersonRef<'a>>,
    /// The raw XML of the role's `Extensions`, if any.
    pub extensions: Option<&'a str>,
}

/// Owned role descriptor base fields.
#[derive(Debug, Clone, PartialEq)]
pub struct RoleDescriptorBase {
    /// The optional `ID`.
    pub id: Option<String>,
    /// The optional `validUntil` instant (nanoseconds since the Unix epoch).
    pub valid_until: Option<i128>,
    /// The optional `cacheDuration` (ISO 8601 duration string).
    pub cache_duration: Option<String>,
    /// `protocolSupportEnumeration` URIs (1..n).
    pub protocol_support_enumeration: Vec<String>,
    /// The optional `errorURL`.
    pub error_url: Option<String>,
    /// Key descriptors (0..n).
    pub key_descriptors: Vec<KeyDescriptor>,
    /// The optional `md:Organization`.
    pub organization: Option<Organization>,
    /// Contact persons (0..n).
    pub contact_persons: Vec<ContactPerson>,
    /// The role's `Extensions`, if any.
    pub extensions: Option<Extensions>,
}

/// The key descriptors of an owned base are copies of the borrowed ones.
pub open spec fn key_descriptors_copied(a: Seq<KeyDescriptorRef>, b: Seq<KeyDescriptor>) -> bool {
    a.len() == b.len() && forall|i: int| 0 <= i < a.len() ==> {
        &&& (#[trigger] a[i]).use_ == b[i].use_
        &&& a[i].key_info_xml@ == b[i].key_info_xml@
        &&& a[i].encryption_methods.len() == b[i].encryption_methods.len()
    }
}

/// A role descriptor base and its owned copy agree field by field.
pub open spec fn role_base_copied(a: RoleDescriptorBaseRef, b: RoleDescriptorBase) -> bool {
    &&& opt_str_view(a.id) == opt_string_view(b.id)
    &&& a.valid_until == b.valid_until
    &&& opt_str_view(a.cache_duration) == opt_string_view(b.cache_duration)
    &&& strs_view(a.protocol_support_enumeration@) == strings_view(b.protocol_support_enumeration@)
    &&& opt_str_view(a.error_url) == opt_string_view(b.error_url)
    &&& key_descriptors_copied(a.key_descriptors@, b.key_descriptors@)
    &&& match (a.organization, b.organization) {
        (Some(x), Some(y)) => organization_copied(x, y),
        (None, None) => true,
        _ => false,
    }
    &&& contacts_copied(a.contact_persons@, b.contact_persons@)
    &&& match (a.extensions, b.extensions) {
        (Some(x), Some(e)) => x@ == e.raw_xml@,
        (None, None) => true,
        _ => false,
    }
}

impl<'a> RoleDescriptorBaseRef<'a> {
    /// Convert to owned RoleDescriptorBase.
    pub fn to_owned(&self) -> (r: RoleDescriptorBase)
        ensures
            role_base_copied(*self, r),
    {
        let mut kds: Vec<KeyDescriptor> = Vec::new();
        let mut i: usize = 0;
        while i < self.key_descriptors.len()
            invariant
                i <= self.key_descriptors.len(),
                kds.len() == i,
                forall|k: int| 0 <= k < i ==> {
                    &&& (#[trigger] self.key_descriptors@[k]).use_ == kds@[k].use_
                    &&& self.key_descriptors@[k].key_info_xml@ == kds@[k].key_info_xml@
                    &&& self.key_descriptors@[k].encryption_methods.len() == kds@[k].encryption_methods.len()
                },
            decreases self.key_descriptors.len() - i,
        {
            kds.push(self.key_descriptors[i].to_owned());
            i = i + 1;
        }
        RoleDescriptorBase {
            id: opt_str_to_owned(self.id),
            valid_until: self.valid_until,
            cache_duration: opt_str_to_owned(self.cache_duration),
            protocol_support_enumeration: strs_to_strings(&self.protocol_support_enumeration),
            error_url: opt_str_to_owned(self.error_url),
            key_descriptors: kds,
            organization: match &self.organization {
                Some(o) => Some(o.to_owned()),
                None => None,
            },
            contact_persons: contacts_to_owned(&self.contact_persons),
            extensions: match self.extensions {
                Some(x) => Some(Extensions::new(x)),
                None => None,
            },
        }
    }
}

impl RoleDescriptorBase {
    /// A base supporting the given protocols, with nothing else set.
    pub fn new(protocol_support_enumeration: Vec<String>) -> (r: Self)
        ensures
            r.protocol_support_enumeration == protocol_support_enumeration,
            r.id is None,
            r.valid_until is None,
            r.cache_duration is None,
            r.error_url is None,
            r.key_descriptors.len() == 0,
            r.organization is None,
            r.contact_persons.len() == 0,
            r.extensions is None,
    {
        RoleDescriptorBase {
            id: None,
            valid_until: None,
            cache_duration: None,
            protocol_support_enumeration,
            error_url: None,
            key_descriptors: Vec::new(),
            organization: None,
            contact_persons: Vec::new(),
            extensions: None,
        }
    }
}

/// Borrowed SSO descriptor base fields.
#[derive(Debug, Clone, PartialEq)]
pub struct SsoDescriptorBaseRef<'a> {
    /// Role descriptor base fields.
    pub base: RoleDescriptorBaseRef<'a>,
    /// Artifact resolution service endpoints (0..n, indexed).
    pub artifact_resolution_services: Vec<IndexedEndpointRef<'a>>,
    /// Single logout service endpoints (0..n).
    pub single_logout_services: Vec<EndpointRef<'a>>,
    /// Manage NameID service endpoints (0..n).
    pub manage_name_id_services: Vec<EndpointRef<'a>>,
    /// Supported NameID formats (0..n).
    pub name_id_formats: Vec<&'a str>,
}

/// Owned SSO descriptor base fields.
#[derive(Debug, Clone, PartialEq)]
pub struct SsoDescriptorBase {
    /// Role descriptor base fields.
    pub base: RoleDescriptorBase,
    /// Artifact resolution service endpoints (0..n, indexed).
    pub artifact_resolution_services: Vec<IndexedEndpoint>,
    /// Single logout service endpoints (0..n).
    pub single_logout_services: Vec<Endpoint>,
    /// Manage NameID service endpoints (0..n).
    pub manage_name_id_services: Vec<Endpoint>,
    /// Supported NameID formats (0..n).
    pub name_id_formats: Vec<String>,
}

/// An SSO descriptor base and its owned copy agree field by field.
pub open spec fn sso_base_copied(a: SsoDescriptorBaseRef, b: SsoDescriptorBase) -> bool {
    &&& role_base_copied(a.base, b.base)
    &&& indexed_endpoints_copied(a.artifact_resolution_services@, b.artifact_resolution_services@)
    &&& endpoints_copied(a.single_logout_services@, b.single_logout_services@)
    &&& endpoints_copied(a.manage_name_id_services@, b.manage_name_id_services@)
    &&& strs_view(a.name_id_formats@) == strings_view(b.name_id_formats@)
}

impl<'a> SsoDescriptorBaseRef<'a> {
    /// Convert to owned SsoDescriptorBase.
    pub fn to_owned(&self) -> (r: SsoDescriptorBase)
        ensures
            sso_base_copied(*self, r),
    {
        SsoDescriptorBase {
            base: self.base.to_owned(),
            artifact_resolution_services: indexed_endpoints_to_owned(&self.artifact_resolution_services),
            single_logout_services: endpoints_to_owned(&self.single_logout_services),
            manage_name_id_services: endpoints_to_owned(&self.manage_name_id_services),
            name_id_formats: strs_to_strings(&self.name_id_formats),
        }
    }
}

} // verus!
