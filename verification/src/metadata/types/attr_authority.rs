//! `md:AttributeAuthorityDescriptor` (saml-metadata-2.0-os section 2.4.7).

use vstd::prelude::*;
use super::endpoint::{endpoints_copied, endpoints_to_owned, Endpoint, EndpointRef};
use super::role_descriptor::{role_base_copied, RoleDescriptorBase, RoleDescriptorBaseRef};
use crate::assertion::{attributes_copied, attributes_to_owned, Attribute, AttributeRef};
use crate::text::{strings_view, strs_to_strings, strs_view};

verus! {

/// Borrowed AttributeAuthority Descriptor - references parsed XML.
#[derive(Debug, Clone, PartialEq)]
pub struct AttributeAuthorityDescriptorRef<'a> {
    /// Role descriptor base fields.
    pub base: RoleDescriptorBaseRef<'a>,
    /// Attribute service endpoints (1..n, required).
    pub attribute_services: Vec<EndpointRef<'a>>,
    /// Assertion ID request service endpoints (0..n).
    pub assertion_id_request_services: Vec<EndpointRef<'a>>,
    /// Supported NameID formats (0..n).
    pub name_id_formats: Vec<&'a str>,
    /// Attribute profiles (0..n).
    pub attribute_profiles: Vec<&'a str>,
    /// Attributes (0..n).
    pub attributes: Vec<AttributeRef<'a>>,
}

/// Owned AttributeAuthority Descriptor.
#[derive(Debug, Clone, PartialEq)]
pub struct AttributeAuthorityDescriptor {
    /// Role descriptor base fields.
    pub base: RoleDescriptorBase,
    /// Attribute service endpoints (1..n, required).
    pub attribute_services: Vec<Endpoint>,
    /// Assertion ID request service endpoints (0..n).
    pub assertion_id_request_services: Vec<Endpoint>,
    /// Supported NameID formats (0..n).
    pub name_id_formats: Vec<String>,
    /// Attribute profiles (0..n).
    pub attribute_profiles: Vec<String>,
    /// Attributes (0..n).
    pub attributes: Vec<Attribute>,
}

/// An attribute authority descriptor and its owned copy agree field by field.
pub open spec fn attr_authority_copied(a: AttributeAuthorityDescriptorRef, b: AttributeAuthorityDescriptor) -> bool {
    &&& role_base_copied(a.base, b.base)
    &&& endpoints_copied(a.attribute_services@, b.attribute_services@)
    &&& endpoints_copied(a.assertion_id_request_services@, b.assertion_id_request_services@)
    &&& strs_view(a.name_id_formats@) == strings_view(b.name_id_formats@)
    &&& strs_view(a.attribute_profiles@) == strings_view(b.attribute_profiles@)
    &&& attributes_copied(a.attributes@, b.attributes@)
}

impl<'a> AttributeAuthorityDescriptorRef<'a> {
    /// Convert to owned AttributeAuthorityDescriptor.
    pub fn to_owned(&self) -> (r: AttributeAuthorityDescriptor)
        ensures
            attr_authority_copied(*self, r),
    {
        AttributeAuthorityDescriptor {
            base: self.base.to_owned(),
            attribute_services: endpoints_to_owned(&self.attribute_services),
            assertion_id_request_services: endpoints_to_owned(&self.assertion_id_request_services),
            name_id_formats: strs_to_strings(&self.name_id_formats),
            attribute_profiles: strs_to_strings(&self.attribute_profiles),
            attributes: attributes_to_owned(&self.attributes),
        }
    }
}

} // verus!
