//! `md:AuthnAuthorityDescriptor` (saml-metadata-2.0-os section 2.4.5).

use vstd::prelude::*;
use super::endpoint::{endpoints_copied, endpoints_to_owned, Endpoint, EndpointRef};
use super::role_descriptor::{role_base_copied, RoleDescriptorBase, RoleDescriptorBaseRef};
use crate::text::{strings_view, strs_to_strings, strs_view};

verus! {

/// Borrowed AuthnAuthority Descriptor - references parsed XML.
#[derive(Debug, Clone, PartialEq)]
pub struct AuthnAuthorityDescriptorRef<'a> {
    /// Role descriptor base fields.
    pub base: RoleDescriptorBaseRef<'a>,
    /// AuthnQuery service endpoints (1..n, required).
    pub authn_query_services: Vec<EndpointRef<'a>>,
    /// Assertion ID request service endpoints (0..n).
    pub assertion_id_request_services: Vec<EndpointRef<'a>>,
    /// Supported NameID formats (0..n).
    pub name_id_formats: Vec<&'a str>,
}

/// Owned AuthnAuthority Descriptor.
#[derive(Debug, Clone, PartialEq)]
pub struct AuthnAuthorityDescriptor {
    /// Role descriptor base fields.
    pub base: RoleDescriptorBase,
    /// AuthnQuery service endpoints (1..n, required).
    pub authn_query_services: Vec<Endpoint>,
    /// Assertion ID request service endpoints (0..n).
    pub assertion_id_request_services: Vec<Endpoint>,
    /// Supported NameID formats (0..n).
    pub name_id_formats: Vec<String>,
}

/// An authentication authority descriptor and its owned copy agree field by field.
pub open spec fn authn_authority_copied(a: AuthnAuthorityDescriptorRef, b: AuthnAuthorityDescriptor) -> bool {
    &&& role_base_copied(a.base, b.base)
    &&& endpoints_copied(a.authn_query_services@, b.authn_query_services@)
    &&& endpoints_copied(a.assertion_id_request_services@, b.assertion_id_request_services@)
    &&& strs_view(a.name_id_formats@) == strings_view(b.name_id_formats@)
}

impl<'a> AuthnAuthorityDescriptorRef<'a> {
    /// Convert to owned AuthnAuthorityDescriptor.
    pub fn to_owned(&self) -> (r: AuthnAuthorityDescriptor)
        ensures
            authn_authority_copied(*self, r),
    {
        AuthnAuthorityDescriptor {
            base: self.base.to_owned(),
            authn_query_services: endpoints_to_owned(&self.authn_query_services),
            assertion_id_request_services: endpoints_to_owned(&self.assertion_id_request_services),
            name_id_formats: strs_to_strings(&self.name_id_formats),
        }
    }
}

} // verus!
