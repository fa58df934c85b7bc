//! `md:IDPSSODescriptor` (saml-metadata-2.0-os section 2.4.3).

use vstd::prelude::*;
use super::endpoint::{endpoints_copied, endpoints_to_owned, Endpoint, EndpointRef};
use super::key_descriptor::{role_certificates, role_certificates_der};
use super::role_descriptor::{sso_base_copied, SsoDescriptorBase, SsoDescriptorBaseRef};
use crate::assertion::{attributes_copied, attributes_to_owned, Attribute, AttributeRef};
use crate::text::{str_eq, strings_view, strs_to_strings, strs_view};

verus! {

/// Borrowed IDP SSO Descriptor - references parsed XML.
#[derive(Debug, Clone, PartialEq)]
pub struct IdpSsoDescriptorRef<'a> {
    /// SSO descriptor base fields.
    pub sso_base: SsoDescriptorBaseRef<'a>,
    /// Whether the IdP wants AuthnRequests signed (optional, default false).
    pub want_authn_requests_signed: Option<bool>,
    /// Single sign-on service endpoints (1..n, required).
    pub single_sign_on_services: Vec<EndpointRef<'a>>,
    /// Name ID mapping service endpoints (0..n).
    pub name_id_mapping_services: Vec<EndpointRef<'a>>,
    /// Assertion ID request service endpoints (0..n).
    pub assertion_id_request_services: Vec<EndpointRef<'a>>,
    /// Attribute profiles (0..n).
    pub attribute_profiles: Vec<&'a str>,
    /// Attributes (0..n).
    pub attributes: Vec<AttributeRef<'a>>,
}

/// Owned IDP SSO Descriptor - for construction and storage.
#[derive(Debug, Clone, PartialEq)]
pub struct IdpSsoDescriptor {
    /// SSO descriptor base fields.
    pub sso_base: SsoDescriptorBase,
    /// Whether the IdP wants AuthnRequests signed (optional, default false).
    pub want_authn_requests_signed: Option<bool>,
    /// Single sign-on service endpoints (1..n, required).
    pub single_sign_on_services: Vec<Endpoint>,
    /// Name ID mapping service endpoints (0..n).
    pub name_id_mapping_services: Vec<Endpoint>,
    /// Assertion ID request service endpoints (0..n).
    pub assertion_id_request_services: Vec<Endpoint>,
    /// Attribute profiles (0..n).
    pub attribute_profiles: Vec<String>,
    /// Attributes (0..n).
    pub attributes: Vec<Attribute>,
}

/// An IdP descriptor and its owned copy agree field by field.
pub open spec fn idp_copied(a: IdpSsoDescriptorRef, b: IdpSsoDescriptor) -> bool {
    &&& sso_base_copied(a.sso_base, b.sso_base)
    &&& a.want_authn_requests_signed == b.want_authn_requests_signed
    &&& endpoints_copied(a.single_sign_on_services@, b.single_sign_on_services@)
    &&& endpoints_copied(a.name_id_mapping_services@, b.name_id_mapping_services@)
    &&& endpoints_copied(a.assertion_id_request_services@, b.assertion_id_request_services@)
    &&& strs_view(a.attribute_profiles@) == strings_view(b.attribute_profiles@)
    &&& attributes_copied(a.attributes@, b.attributes@)
}

impl<'a> IdpSsoDescriptorRef<'a> {
    /// Convert to owned IdpSsoDescriptor.
    pub fn to_owned(&self) -> (r: IdpSsoDescriptor)
        ensures
            idp_copied(*self, r),
    {
        IdpSsoDescriptor {
            sso_base: self.sso_base.to_owned(),
            want_authn_requests_signed: self.want_authn_requests_signed,
            single_sign_on_services: endpoints_to_owned(&self.single_sign_on_services),
            name_id_mapping_services: endpoints_to_owned(&self.name_id_mapping_services),
            assertion_id_request_services: endpoints_to_owned(&self.assertion_id_request_services),
            attribute_profiles: strs_to_strings(&self.attribute_profiles),
            attributes: attributes_to_owned(&self.attributes),
        }
    }
}

/// The position of the first endpoint with this binding.
pub open spec fn first_with_binding(es: Seq<Endpoint>, binding: Seq<char>, i: int) -> Option<int>
    decreases es.len() - i,
{
    if i < 0 || i >= es.len() {
        None
    } else if es[i].binding@ == binding {
        Some(i)
    } else {
        first_with_binding(es, binding, i + 1)
    }
}

/// The first endpoint of `es` with this binding.
pub fn find_endpoint_by_binding<'b>(es: &'b Vec<Endpoint>, binding: &str) -> (r: Option<&'b Endpoint>)
    ensures
        match r {
            Some(e) => first_with_binding(es@, binding@, 0) matches Some(k) && 0 <= k < es.len() && *e == es@[k],
            None => first_with_binding(es@, binding@, 0) is None,
        },
{
    let mut i: usize = 0;
    while i < es.len()
        invariant
            i <= es.len(),
            first_with_binding(es@, binding@, 0) == first_with_binding(es@, binding@, i as int),
        decreases es.len() - i,
    {
        if str_eq(es[i].binding.as_str(), binding) {
            return Some(&es[i]);
        }
        i = i + 1;
    }
    None
}

impl IdpSsoDescriptor {
    /// The first `SingleSignOnService` endpoint advertised for `binding`, if any.
    pub fn single_sign_on_service(&self, binding: &str) -> (r: Option<&Endpoint>)
        ensures
            match r {
                Some(e) => first_with_binding(self.single_sign_on_services@, binding@, 0) matches Some(k)
                    && 0 <= k < self.single_sign_on_services.len() && *e == self.single_sign_on_services@[k],
                None => first_with_binding(self.single_sign_on_services@, binding@, 0) is None,
            },
    {
        find_endpoint_by_binding(&self.single_sign_on_services, binding)
    }

    /// DER-encoded signing certificates drawn from this descriptor's key
    /// descriptors: those marked `use="signing"` or with no `use` (E62), in
    /// document order. An empty result means no signing trust anchor could be
    /// extracted; callers must fail closed on it.
    pub fn signing_certificates_der(&self) -> (r: Vec<Vec<u8>>)
        ensures
            r.deep_view() == role_certificates(self.sso_base.base.key_descriptors@, true),
    {
        role_certificates_der(&self.sso_base.base.key_descriptors, true)
    }
}

} // verus!
