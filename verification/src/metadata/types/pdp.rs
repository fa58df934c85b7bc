//! `md:PDPDescriptor` (saml-metadata-2.0-os section 2.4.6).

use vstd::prelude::*;
use super::endpoint::{endpoints_copied, endpoints_to_owned, Endpoint, EndpointRef};
use super::role_descriptor::{role_base_copied, RoleDescriptorBase, RoleDescriptorBaseRef};
use crate::text::{strings_view, strs_to_strings, strs_view};

verus! {

/// Borrowed PDP Descriptor - references parsed XML.
#[derive(Debug, Clone, PartialEq)]
pub struct PdpDescriptorRef<'a> {
    /// Role descriptor base fields.
    pub base: RoleDescriptorBaseRef<'a>,
    /// AuthzService endpoints (1..n, required).
    pub authz_services: Vec<EndpointRef<'a>>,
    /// Assertion ID request service endpoints (0..n).
    pub assertion_id_request_services: Vec<EndpointRef<'a>>,
    /// Supported NameID formats (0..n).
    pub name_id_formats: Vec<&'a str>,
}

/// Owned PDP Descriptor.
#[derive(Debug, Clone, PartialEq)]
pub struct PdpDescriptor {
    /// Role descriptor base fields.
    pub base: RoleDescriptorBase,
    /// AuthzService endpoints (1..n, required).
    pub authz_services: Vec<Endpoint>,
    /// Assertion ID request service endpoints (0..n).
    pub assertion_id_request_services: Vec<Endpoint>,
    /// Supported NameID formats (0..n).
    pub name_id_formats: Vec<String>,
}

/// A PDP descriptor and its owned copy agree field by field.
pub open spec fn pdp_copied(a: PdpDescriptorRef, b: PdpDescriptor) -> bool {
    &&& role_base_copied(a.base, b.base)
    &&& endpoints_copied(a.authz_services@, b.authz_services@)
    &&& endpoints_copied(a.assertion_id_request_services@, b.assertion_id_request_services@)
    &&& strs_view(a.name_id_formats@) == strings_view(b.name_id_formats@)
}

impl<'a> PdpDescriptorRef<'a> {
    /// Convert to owned PdpDescriptor.
    pub fn to_owned(&self) -> (r: PdpDescriptor)
        ensures
            pdp_copied(*self, r),
    {
        PdpDescriptor {
            base: self.base.to_owned(),
            authz_services: endpoints_to_owned(&self.authz_services),
            assertion_id_request_services: endpoints_to_owned(&self.assertion_id_request_services),
            name_id_formats: strs_to_strings(&self.name_id_formats),
        }
    }
}

} // verus!
