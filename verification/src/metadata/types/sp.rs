//! `md:SPSSODescriptor` (saml-metadata-2.0-os section 2.4.4).

use vstd::prelude::*;
use super::endpoint::{indexed_endpoints_copied, indexed_endpoints_to_owned, IndexedEndpoint, IndexedEndpointRef};
use super::key_descriptor::{role_certificates, role_certificates_der};
use super::localized::{localized_names_copied, localized_names_to_owned, LocalizedName, LocalizedNameRef};
use super::role_descriptor::{sso_base_copied, SsoDescriptorBase, SsoDescriptorBaseRef};
use crate::assertion::{attribute_copied, Attribute, AttributeRef};

verus! {

/// Borrowed requested attribute (section 2.4.4.1).
#[derive(Debug, Clone, PartialEq)]
pub struct RequestedAttributeRef<'a> {
    /// The attribute base fields.
    pub attribute: AttributeRef<'a>,
    /// Whether this attribute is required (optional, default false).
    pub is_required: Option<bool>,
}

/// Owned requested attribute.
#[derive(Debug, Clone, PartialEq)]
pub struct RequestedAttribute {
    /// The attribute base fields.
    pub attribute: Attribute,
    /// Whether this attribute is required (optional, default false).
    pub is_required: Option<bool>,
}

/// A requested attribute and its owned copy agree.
pub open spec fn requested_attribute_copied(a: RequestedAttributeRef, b: RequestedAttribute) -> bool {
    attribute_copied(a.attribute, b.attribute) && a.is_required == b.is_required
}

impl<'a> RequestedAttributeRef<'a> {
    /// Convert to owned RequestedAttribute.
    pub fn to_owned(&self) -> (r: RequestedAttribute)
        ensures
            requested_attribute_copied(*self, r),
    {
        RequestedAttribute { attribute: self.attribute.to_owned(), is_required: self.is_required }
    }
}

/// Borrowed attribute consuming service (section 2.4.4.1).
#[derive(Debug, Clone, PartialEq)]
pub struct AttributeConsumingServiceRef<'a> {
    /// The index of this service (required).
    pub index: u16,
    /// Whether this is the default service (optional).
    pub is_default: Option<bool>,
    /// Service names (1..n, required).
    pub service_names: Vec<LocalizedNameRef<'a>>,
    /// Service descriptions (0..n).
    pub service_descriptions: Vec<LocalizedNameRef<'a>>,
    /// Requested attributes (1..n, required).
    pub requested_attributes: Vec<RequestedAttributeRef<'a>>,
}

/// Owned attribute consuming service.
#[derive(Debug, Clone, PartialEq)]
pub struct AttributeConsumingService {
    /// The index of this service (required).
    pub index: u16,
    /// Whether this is the default service (optional).
    pub is_default: Option<bool>,
    /// Service names (1..n, required).
    pub service_names: Vec<LocalizedName>,
    /// Service descriptions (0..n).
    pub service_descriptions: Vec<LocalizedName>,
    /// Requested attributes (1..n, required).
    pub requested_attributes: Vec<RequestedAttribute>,
}

/// An attribute consuming service and its owned copy agree.
pub open spec fn consuming_service_copied(a: AttributeConsumingServiceRef, b: AttributeConsumingService) -> bool {
    &&& a.index == b.index
    &&& a.is_default == b.is_default
    &&& localized_names_copied(a.service_names@, b.service_names@)
    &&& localized_names_copied(a.service_descriptions@, b.service_descriptions@)
    &&& a.requested_attributes.len() == b.requested_attributes.len()
    &&& forall|i: int| 0 <= i < a.requested_attributes.len() ==> requested_attribute_copied(
        #[trigger] a.requested_attributes@[i],
        b.requested_attributes@[i],
    )
}

impl<'a> AttributeConsumingServiceRef<'a> {
    /// Convert to owned AttributeConsumingService.
    pub fn to_owned(&self) -> (r: AttributeConsumingService)
        ensures
            consuming_service_copied(*self, r),
    {
        let mut requested: Vec<RequestedAttribute> = Vec::new();
        let mut i: usize = 0;
        while i < self.requested_attributes.len()
            invariant
                i <= self.requested_attributes.len(),
                requested.len() == i,
                forall|k: int| 0 <= k < i ==> requested_attribute_copied(
                    #[trigger] self.requested_attributes@[k],
                    requested@[k],
                ),
            decreases self.requested_attributes.len() - i,
        {
            requested.push(self.requested_attributes[i].to_owned());
            i = i + 1;
        }
        AttributeConsumingService {
            index: self.index,
            is_default: self.is_default,
            service_names: localized_names_to_owned(&self.service_names),
            service_descriptions: localized_names_to_owned(&self.service_descriptions),
            requested_attributes: requested,
        }
    }
}

/// Borrowed SP SSO Descriptor - references parsed XML.
#[derive(Debug, Clone, PartialEq)]
pub struct SpSsoDescriptorRef<'a> {
    /// SSO descriptor base fields.
    pub sso_base: SsoDescriptorBaseRef<'a>,
    /// Whether the SP signs AuthnRequests (optional, default false).
    pub authn_requests_signed: Option<bool>,
    /// Whether the SP wants assertions signed (optional, default false).
    pub want_assertions_signed: Option<bool>,
    /// Assertion consumer service endpoints (1..n, required, indexed).
    pub assertion_consumer_services: Vec<IndexedEndpointRef<'a>>,
    /// Attribute consuming services (0..n).
    pub attribute_consuming_services: Vec<AttributeConsumingServiceRef<'a>>,
}

/// Owned SP SSO Descriptor - for construction and storage.
#[derive(Debug, Clone, PartialEq)]
pub struct SpSsoDescriptor {
    /// SSO descriptor base fields.
    pub sso_base: SsoDescriptorBase,
    /// Whether the SP signs AuthnRequests (optional, default false).
    pub authn_requests_signed: Option<bool>,
    /// Whether the SP wants assertions signed (optional, default false).
    pub want_assertions_signed: Option<bool>,
    /// Assertion consumer service endpoints (1..n, required, indexed).
    pub assertion_consumer_services: Vec<IndexedEndpoint>,
    /// Attribute consuming services (0..n).
    pub attribute_consuming_services: Vec<AttributeConsumingService>,
}

/// An SP descriptor and its owned copy agree field by field.
pub open spec fn sp_copied(a: SpSsoDescriptorRef, b: SpSsoDescriptor) -> bool {
    &&& sso_base_copied(a.sso_base, b.sso_base)
    &&& a.authn_requests_signed == b.authn_requests_signed
    &&& a.want_assertions_signed == b.want_assertions_signed
    &&& indexed_endpoints_copied(a.assertion_consumer_services@, b.assertion_consumer_services@)
    &&& a.attribute_consuming_services.len() == b.attribute_consuming_services.len()
    &&& forall|i: int| 0 <= i < a.attribute_consuming_services.len() ==> consuming_service_copied(
        #[trigger] a.attribute_consuming_services@[i],
        b.attribute_consuming_services@[i],
    )
}

impl<'a> SpSsoDescriptorRef<'a> {
    /// Convert to owned SpSsoDescriptor.
    pub fn to_owned(&self) -> (r: SpSsoDescriptor)
        ensures
            sp_copied(*self, r),
    {
        let mut services: Vec<AttributeConsumingService> = Vec::new();
        let mut i: usize = 0;
        while i < self.attribute_consuming_services.len()
            invariant
                i <= self.attribute_consuming_services.len(),
                services.len() == i,
                forall|k: int| 0 <= k < i ==> consuming_service_copied(
                    #[trigger] self.attribute_consuming_services@[k],
                    services@[k],
                ),
            decreases self.attribute_consuming_services.len() - i,
        {
            services.push(self.attribute_consuming_services[i].to_owned());
            i = i + 1;
        }
        SpSsoDescriptor {
            sso_base: self.sso_base.to_owned(),
            authn_requests_signed: self.authn_requests_signed,
            want_assertions_signed: self.want_assertions_signed,
            assertion_consumer_services: indexed_endpoints_to_owned(&self.assertion_consumer_services),
            attribute_consuming_services: services,
        }
    }
}

impl SpSsoDescriptor {
    /// DER-encoded signing certificates: key descriptors marked
    /// `use="signing"` or with no `use` (E62), in document order. An empty
    /// result means no signing trust anchor; callers must fail closed.
    pub fn signing_certificates_der(&self) -> (r: Vec<Vec<u8>>)
        ensures
            r.deep_view() == role_certificates(self.sso_base.base.key_descriptors@, true),
    {
        role_certificates_der(&self.sso_base.base.key_descriptors, true)
    }

    /// DER-encoded encryption certificates: key descriptors marked
    /// `use="encryption"` or with no `use` (E62), in document order.
    pub fn encryption_certificates_der(&self) -> (r: Vec<Vec<u8>>)
        ensures
            r.deep_view() == role_certificates(self.sso_base.base.key_descriptors@, false),
    {
        role_certificates_der(&self.sso_base.base.key_descriptors, false)
    }
}

} // verus!
