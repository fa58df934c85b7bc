//! Writing metadata as XML (saml-metadata-2.0-os sections 2.2 to 2.5):
//! descriptors, their endpoints, keys, organizations and contacts, through
//! the uppsala writer.  A descriptor written on its own declares the
//! metadata, assertion and signature namespaces; one nested in an
//! `EntitiesDescriptor` does not declare them again.
//!
//! Each writer appends to an `XmlBuffer`, and its contract gives what it
//! appends in terms of the writer's named markup.

use vstd::prelude::*;
use crate::assertion::Attribute;
use crate::markup::pairs_view;
use crate::protocol::{instant_rfc3339, rfc3339_string};
use crate::text::{decimal_string_u64, decimal_text, opt_string_view, push_str, seq_contains, str_contains, strings_view};
use crate::xml_writer::{empty_element_markup, end_element_markup, start_element_markup, text_markup, XmlBuffer};
use super::types::additional::AdditionalMetadataLocation;
use super::types::affiliation::AffiliationDescriptor;
use super::types::attr_authority::AttributeAuthorityDescriptor;
use super::types::authn_authority::AuthnAuthorityDescriptor;
use super::types::contact::{contact_type_text, ContactPerson};
use super::types::endpoint::{Endpoint, IndexedEndpoint};
use super::types::entity_descriptor::{EntitiesDescriptor, EntityDescriptor, EntityRoles, MetadataChild};
use super::types::extensions::Extensions;
use super::types::idp::IdpSsoDescriptor;
use super::types::key_descriptor::{key_use_text, EncryptionMethod, KeyDescriptor};
use super::types::localized::{LocalizedName, LocalizedUri};
use super::types::organization::Organization;
use super::types::pdp::PdpDescriptor;
use super::types::role_descriptor::{RoleDescriptorBase, SsoDescriptorBase};
use super::types::sp::{AttributeConsumingService, RequestedAttribute, SpSsoDescriptor};

verus! {

/// The SAML metadata namespace.
pub const SAML_METADATA_NS: &'static str = "urn:oasis:names:tc:SAML:2.0:metadata";

/// The SAML assertion namespace.
pub const SAML_ASSERTION_NS: &'static str = "urn:oasis:names:tc:SAML:2.0:assertion";

/// The XML Signature namespace.
pub const XMLDSIG_NS: &'static str = "http://www.w3.org/2000/09/xmldsig#";

/// The XML Encryption namespace.
pub const XMLENC_NS: &'static str = "http://www.w3.org/2001/04/xmlenc#";

// ── The markup, stated ─────────────────────────────────────────────────────

/// The markup of each item of `s`, in order.
pub open spec fn concat_map<A>(s: Seq<A>, f: spec_fn(A) -> Seq<char>) -> Seq<char>
    decreases s.len(),
{
    if s.len() == 0 {
        Seq::empty()
    } else {
        concat_map(s.drop_last(), f) + f(s.last())
    }
}

/// One more item adds its markup at the end.
proof fn lemma_concat_map_step<A>(s: Seq<A>, f: spec_fn(A) -> Seq<char>, i: int)
    requires
        0 <= i < s.len(),
    ensures
        concat_map(s.take(i + 1), f) == concat_map(s.take(i), f) + f(s[i]),
{
    assert(s.take(i + 1).drop_last() =~= s.take(i));
    assert(s.take(i + 1).last() == s[i]);
}

/// The attribute `k="v"` when a value is present.
pub open spec fn opt_pair(k: Seq<char>, v: Option<Seq<char>>) -> Seq<(Seq<char>, Seq<char>)> {
    match v {
        Some(x) => seq![(k, x)],
        None => Seq::empty(),
    }
}

/// `true` or `false`.
pub open spec fn bool_text(b: bool) -> Seq<char> {
    if b {
        "true"@
    } else {
        "false"@
    }
}

/// The boolean attribute `k` when a value is present.
pub open spec fn opt_bool_pair(k: Seq<char>, b: Option<bool>) -> Seq<(Seq<char>, Seq<char>)> {
    match b {
        Some(x) => seq![(k, bool_text(x))],
        None => Seq::empty(),
    }
}

/// The `validUntil` text of an optional instant.
pub open spec fn valid_until_text(o: Option<i128>) -> Option<Seq<char>> {
    match o {
        Some(t) => instant_rfc3339(t),
        None => None,
    }
}

/// The URIs joined by single spaces.
pub open spec fn joined_space(s: Seq<Seq<char>>) -> Seq<char>
    decreases s.len(),
{
    if s.len() == 0 {
        Seq::empty()
    } else if s.len() == 1 {
        s[0]
    } else {
        joined_space(s.drop_last()) + seq![' '] + s.last()
    }
}

/// `<tag>text</tag>`.
pub open spec fn text_element_markup(tag: Seq<char>, text: Seq<char>) -> Seq<char> {
    start_element_markup(tag, Seq::empty()) + text_markup(text) + end_element_markup(tag)
}

/// `<tag>text</tag>` when the text is present.
pub open spec fn opt_text_element_markup(tag: Seq<char>, text: Option<String>) -> Seq<char> {
    match text {
        Some(t) => text_element_markup(tag, t@),
        None => Seq::empty(),
    }
}

/// A string as a `tag` element.
pub open spec fn texts_markup(tag: Seq<char>) -> spec_fn(String) -> Seq<char> {
    |s: String| text_element_markup(tag, s@)
}

/// The attributes of an endpoint.
pub open spec fn endpoint_attrs(ep: Endpoint) -> Seq<(Seq<char>, Seq<char>)> {
    seq![("Binding"@, ep.binding@), ("Location"@, ep.location@)] + opt_pair(
        "ResponseLocation"@,
        opt_string_view(ep.response_location),
    )
}

/// An endpoint as an empty `tag` element.
pub open spec fn endpoints_markup(tag: Seq<char>) -> spec_fn(Endpoint) -> Seq<char> {
    |ep: Endpoint| empty_element_markup(tag, endpoint_attrs(ep))
}

/// The attributes of an indexed endpoint.
pub open spec fn indexed_endpoint_attrs(ep: IndexedEndpoint) -> Seq<(Seq<char>, Seq<char>)> {
    seq![("Binding"@, ep.endpoint.binding@), ("Location"@, ep.endpoint.location@), ("index"@, decimal_text(ep.index as nat))]
        + opt_pair("ResponseLocation"@, opt_string_view(ep.endpoint.response_location)) + opt_bool_pair(
        "isDefault"@,
        ep.is_default,
    )
}

/// An indexed endpoint as an empty `tag` element.
pub open spec fn indexed_endpoints_markup(tag: Seq<char>) -> spec_fn(IndexedEndpoint) -> Seq<char> {
    |ep: IndexedEndpoint| empty_element_markup(tag, indexed_endpoint_attrs(ep))
}

/// `<tag xml:lang="lang">value</tag>`.
pub open spec fn localized_markup(tag: Seq<char>, lang: Seq<char>, value: Seq<char>) -> Seq<char> {
    start_element_markup(tag, seq![("xml:lang"@, lang)]) + text_markup(value) + end_element_markup(tag)
}

/// A localized name as a `tag` element.
pub open spec fn localized_names_markup(tag: Seq<char>) -> spec_fn(LocalizedName) -> Seq<char> {
    |n: LocalizedName| localized_markup(tag, n.lang@, n.value@)
}

/// A localized URI as a `tag` element.
pub open spec fn localized_uris_markup(tag: Seq<char>) -> spec_fn(LocalizedUri) -> Seq<char> {
    |n: LocalizedUri| localized_markup(tag, n.lang@, n.value@)
}

/// Extensions: their raw XML as it is when it already holds the
/// `Extensions` element, else wrapped in `md:Extensions`.
pub open spec fn extensions_markup(e: Extensions) -> Seq<char> {
    if seq_contains(e.raw_xml@, "<md:Extensions"@) || seq_contains(e.raw_xml@, "<Extensions"@) {
        e.raw_xml@
    } else {
        start_element_markup("md:Extensions"@, Seq::empty()) + e.raw_xml@ + end_element_markup("md:Extensions"@)
    }
}

/// Optional extensions.
pub open spec fn opt_extensions_markup(o: Option<Extensions>) -> Seq<char> {
    match o {
        Some(e) => extensions_markup(e),
        None => Seq::empty(),
    }
}

/// An encryption method: empty unless it has a key size or OAEP parameters.
pub open spec fn encryption_method_markup(em: EncryptionMethod) -> Seq<char> {
    let a = seq![("Algorithm"@, em.algorithm@)];
    if em.key_size is Some || em.oaep_params is Some {
        start_element_markup("md:EncryptionMethod"@, a) + (match em.key_size {
            Some(k) => text_element_markup("xenc:KeySize"@, decimal_text(k as nat)),
            None => Seq::empty(),
        }) + opt_text_element_markup("xenc:OAEPparams"@, em.oaep_params) + end_element_markup(
            "md:EncryptionMethod"@,
        )
    } else {
        empty_element_markup("md:EncryptionMethod"@, a)
    }
}

/// Encryption methods, each in turn.
pub open spec fn encryption_methods_markup() -> spec_fn(EncryptionMethod) -> Seq<char> {
    |em: EncryptionMethod| encryption_method_markup(em)
}

/// A key descriptor: its use, its raw `KeyInfo` and its encryption methods.
pub open spec fn key_descriptor_markup(kd: KeyDescriptor) -> Seq<char> {
    start_element_markup(
        "md:KeyDescriptor"@,
        match kd.use_ {
            Some(u) => seq![("use"@, key_use_text(u))],
            None => Seq::empty(),
        },
    ) + kd.key_info_xml@ + concat_map(kd.encryption_methods@, encryption_methods_markup()) + end_element_markup(
        "md:KeyDescriptor"@,
    )
}

/// Key descriptors, each in turn.
pub open spec fn key_descriptors_markup() -> spec_fn(KeyDescriptor) -> Seq<char> {
    |kd: KeyDescriptor| key_descriptor_markup(kd)
}

/// An organization.
pub open spec fn organization_markup(org: Organization) -> Seq<char> {
    start_element_markup("md:Organization"@, Seq::empty()) + opt_extensions_markup(org.extensions) + concat_map(
        org.organization_names@,
        localized_names_markup("md:OrganizationName"@),
    ) + concat_map(org.organization_display_names@, localized_names_markup("md:OrganizationDisplayName"@))
        + concat_map(org.organization_urls@, localized_uris_markup("md:OrganizationURL"@)) + end_element_markup(
        "md:Organization"@,
    )
}

/// An optional organization.
pub open spec fn opt_organization_markup(o: Option<Organization>) -> Seq<char> {
    match o {
        Some(org) => organization_markup(org),
        None => Seq::empty(),
    }
}

/// A contact person.
pub open spec fn contact_markup(cp: ContactPerson) -> Seq<char> {
    start_element_markup("md:ContactPerson"@, seq![("contactType"@, contact_type_text(cp.contact_type))])
        + opt_extensions_markup(cp.extensions) + opt_text_element_markup("md:Company"@, cp.company)
        + opt_text_element_markup("md:GivenName"@, cp.given_name) + opt_text_element_markup("md:SurName"@, cp.sur_name)
        + concat_map(cp.email_addresses@, texts_markup("md:EmailAddress"@)) + concat_map(
        cp.telephone_numbers@,
        texts_markup("md:TelephoneNumber"@),
    ) + end_element_markup("md:ContactPerson"@)
}

/// Contact persons, each in turn.
pub open spec fn contacts_markup() -> spec_fn(ContactPerson) -> Seq<char> {
    |cp: ContactPerson| contact_markup(cp)
}

/// The attributes of a `saml:Attribute` or `md:RequestedAttribute`.
pub open spec fn attribute_attrs(a: Attribute) -> Seq<(Seq<char>, Seq<char>)> {
    seq![("Name"@, a.name@)] + opt_pair("NameFormat"@, opt_string_view(a.name_format)) + opt_pair(
        "FriendlyName"@,
        opt_string_view(a.friendly_name),
    )
}

/// A `saml:Attribute` with one `saml:AttributeValue` per value.
pub open spec fn attribute_markup(a: Attribute) -> Seq<char> {
    start_element_markup("saml:Attribute"@, attribute_attrs(a)) + concat_map(
        a.values@,
        texts_markup("saml:AttributeValue"@),
    ) + end_element_markup("saml:Attribute"@)
}

/// Attributes, each in turn.
pub open spec fn attributes_markup() -> spec_fn(Attribute) -> Seq<char> {
    |a: Attribute| attribute_markup(a)
}

/// A requested attribute: empty when it carries no value.
pub open spec fn requested_attribute_markup(ra: RequestedAttribute) -> Seq<char> {
    let attrs = attribute_attrs(ra.attribute) + opt_bool_pair("isRequired"@, ra.is_required);
    if ra.attribute.values.len() == 0 {
        empty_element_markup("md:RequestedAttribute"@, attrs)
    } else {
        start_element_markup("md:RequestedAttribute"@, attrs) + concat_map(
            ra.attribute.values@,
            texts_markup("saml:AttributeValue"@),
        ) + end_element_markup("md:RequestedAttribute"@)
    }
}

/// Requested attributes, each in turn.
pub open spec fn requested_attributes_markup() -> spec_fn(RequestedAttribute) -> Seq<char> {
    |ra: RequestedAttribute| requested_attribute_markup(ra)
}

/// An attribute consuming service.
pub open spec fn consuming_service_markup(acs: AttributeConsumingService) -> Seq<char> {
    start_element_markup(
        "md:AttributeConsumingService"@,
        seq![("index"@, decimal_text(acs.index as nat))] + opt_bool_pair("isDefault"@, acs.is_default),
    ) + concat_map(acs.service_names@, localized_names_markup("md:ServiceName"@)) + concat_map(
        acs.service_descriptions@,
        localized_names_markup("md:ServiceDescription"@),
    ) + concat_map(acs.requested_attributes@, requested_attributes_markup()) + end_element_markup(
        "md:AttributeConsumingService"@,
    )
}

/// Attribute consuming services, each in turn.
pub open spec fn consuming_services_markup() -> spec_fn(AttributeConsumingService) -> Seq<char> {
    |acs: AttributeConsumingService| consuming_service_markup(acs)
}

/// The namespace declarations of a descriptor written on its own.
pub open spec fn ns_attrs(with_saml: bool) -> Seq<(Seq<char>, Seq<char>)> {
    seq![("xmlns:md"@, SAML_METADATA_NS@)] + (if with_saml {
        seq![("xmlns:saml"@, SAML_ASSERTION_NS@)]
    } else {
        Seq::empty()
    }) + seq![("xmlns:ds"@, XMLDSIG_NS@), ("xmlns:xenc"@, XMLENC_NS@)]
}

/// The namespace declarations when `ns` holds, none otherwise.
pub open spec fn ns_attrs_if(ns: bool, with_saml: bool) -> Seq<(Seq<char>, Seq<char>)> {
    if ns {
        ns_attrs(with_saml)
    } else {
        Seq::empty()
    }
}

/// The optional attributes of a role descriptor.
pub open spec fn role_base_attrs(base: RoleDescriptorBase) -> Seq<(Seq<char>, Seq<char>)> {
    opt_pair("ID"@, opt_string_view(base.id)) + opt_pair("validUntil"@, valid_until_text(base.valid_until)) + opt_pair(
        "cacheDuration"@,
        opt_string_view(base.cache_duration),
    ) + opt_pair("errorURL"@, opt_string_view(base.error_url))
}

/// The namespace declarations (when `ns` holds), the supported protocols
/// and the optional attributes of a role descriptor.
pub open spec fn role_attrs(base: RoleDescriptorBase, ns: bool, with_saml: bool) -> Seq<(Seq<char>, Seq<char>)> {
    ns_attrs_if(ns, with_saml) + seq![
        ("protocolSupportEnumeration"@, joined_space(strings_view(base.protocol_support_enumeration@))),
    ] + role_base_attrs(base)
}

/// The children every role descriptor starts with.
pub open spec fn role_base_children_markup(base: RoleDescriptorBase) -> Seq<char> {
    opt_extensions_markup(base.extensions) + concat_map(base.key_descriptors@, key_descriptors_markup())
        + opt_organization_markup(base.organization) + concat_map(base.contact_persons@, contacts_markup())
}

/// The children every SSO descriptor starts with.
pub open spec fn sso_base_children_markup(sso: SsoDescriptorBase) -> Seq<char> {
    role_base_children_markup(sso.base) + concat_map(
        sso.artifact_resolution_services@,
        indexed_endpoints_markup("md:ArtifactResolutionService"@),
    ) + concat_map(sso.single_logout_services@, endpoints_markup("md:SingleLogoutService"@)) + concat_map(
        sso.manage_name_id_services@,
        endpoints_markup("md:ManageNameIDService"@),
    ) + concat_map(sso.name_id_formats@, texts_markup("md:NameIDFormat"@))
}

/// An IdP SSO descriptor, declaring the namespaces when `ns` holds.
pub open spec fn idp_markup(idp: IdpSsoDescriptor, ns: bool) -> Seq<char> {
    start_element_markup(
        "md:IDPSSODescriptor"@,
        role_attrs(idp.sso_base.base, ns, true) + opt_bool_pair("WantAuthnRequestsSigned"@, idp.want_authn_requests_signed),
    ) + sso_base_children_markup(idp.sso_base) + concat_map(
        idp.single_sign_on_services@,
        endpoints_markup("md:SingleSignOnService"@),
    ) + concat_map(idp.name_id_mapping_services@, endpoints_markup("md:NameIDMappingService"@)) + concat_map(
        idp.assertion_id_request_services@,
        endpoints_markup("md:AssertionIDRequestService"@),
    ) + concat_map(idp.attribute_profiles@, texts_markup("md:AttributeProfile"@)) + concat_map(
        idp.attributes@,
        attributes_markup(),
    ) + end_element_markup("md:IDPSSODescriptor"@)
}

/// IdP SSO descriptors, each in turn.
pub open spec fn idps_markup(ns: bool) -> spec_fn(IdpSsoDescriptor) -> Seq<char> {
    |d: IdpSsoDescriptor| idp_markup(d, ns)
}

/// An SP SSO descriptor, declaring the namespaces when `ns` holds.
pub open spec fn sp_markup(sp: SpSsoDescriptor, ns: bool) -> Seq<char> {
    start_element_markup(
        "md:SPSSODescriptor"@,
        role_attrs(sp.sso_base.base, ns, true) + opt_bool_pair("AuthnRequestsSigned"@, sp.authn_requests_signed)
            + opt_bool_pair("WantAssertionsSigned"@, sp.want_assertions_signed),
    ) + sso_base_children_markup(sp.sso_base) + concat_map(
        sp.assertion_consumer_services@,
        indexed_endpoints_markup("md:AssertionConsumerService"@),
    ) + concat_map(sp.attribute_consuming_services@, consuming_services_markup()) + end_element_markup(
        "md:SPSSODescriptor"@,
    )
}

/// SP SSO descriptors, each in turn.
pub open spec fn sps_markup(ns: bool) -> spec_fn(SpSsoDescriptor) -> Seq<char> {
    |d: SpSsoDescriptor| sp_markup(d, ns)
}

/// An authentication authority descriptor.
pub open spec fn authn_authority_markup(aa: AuthnAuthorityDescriptor, ns: bool) -> Seq<char> {
    start_element_markup("md:AuthnAuthorityDescriptor"@, role_attrs(aa.base, ns, false)) + role_base_children_markup(
        aa.base,
    ) + concat_map(aa.authn_query_services@, endpoints_markup("md:AuthnQueryService"@)) + concat_map(
        aa.assertion_id_request_services@,
        endpoints_markup("md:AssertionIDRequestService"@),
    ) + concat_map(aa.name_id_formats@, texts_markup("md:NameIDFormat"@)) + end_element_markup(
        "md:AuthnAuthorityDescriptor"@,
    )
}

/// Authentication authority descriptors, each in turn.
pub open spec fn authn_authorities_markup(ns: bool) -> spec_fn(AuthnAuthorityDescriptor) -> Seq<char> {
    |d: AuthnAuthorityDescriptor| authn_authority_markup(d, ns)
}

/// A PDP descriptor.
pub open spec fn pdp_markup(p: PdpDescriptor, ns: bool) -> Seq<char> {
    start_element_markup("md:PDPDescriptor"@, role_attrs(p.base, ns, false)) + role_base_children_markup(p.base)
        + concat_map(p.authz_services@, endpoints_markup("md:AuthzService"@)) + concat_map(
        p.assertion_id_request_services@,
        endpoints_markup("md:AssertionIDRequestService"@),
    ) + concat_map(p.name_id_formats@, texts_markup("md:NameIDFormat"@)) + end_element_markup("md:PDPDescriptor"@)
}

/// PDP descriptors, each in turn.
pub open spec fn pdps_markup(ns: bool) -> spec_fn(PdpDescriptor) -> Seq<char> {
    |d: PdpDescriptor| pdp_markup(d, ns)
}

/// An attribute authority descriptor.
pub open spec fn attr_authority_markup(aa: AttributeAuthorityDescriptor, ns: bool) -> Seq<char> {
    start_element_markup("md:AttributeAuthorityDescriptor"@, role_attrs(aa.base, ns, true))
        + role_base_children_markup(aa.base) + concat_map(aa.attribute_services@, endpoints_markup("md:AttributeService"@))
        + concat_map(aa.assertion_id_request_services@, endpoints_markup("md:AssertionIDRequestService"@))
        + concat_map(aa.name_id_formats@, texts_markup("md:NameIDFormat"@)) + concat_map(
        aa.attribute_profiles@,
        texts_markup("md:AttributeProfile"@),
    ) + concat_map(aa.attributes@, attributes_markup()) + end_element_markup("md:AttributeAuthorityDescriptor"@)
}

/// Attribute authority descriptors, each in turn.
pub open spec fn attr_authorities_markup(ns: bool) -> spec_fn(AttributeAuthorityDescriptor) -> Seq<char> {
    |d: AttributeAuthorityDescriptor| attr_authority_markup(d, ns)
}

/// The attributes of an affiliation descriptor.
pub open spec fn affiliation_attrs(aff: AffiliationDescriptor, ns: bool) -> Seq<(Seq<char>, Seq<char>)> {
    ns_attrs_if(ns, false) + seq![("affiliationOwnerID"@, aff.affiliation_owner_id@)] + opt_pair(
        "ID"@,
        opt_string_view(aff.id),
    ) + opt_pair("validUntil"@, valid_until_text(aff.valid_until)) + opt_pair(
        "cacheDuration"@,
        opt_string_view(aff.cache_duration),
    )
}

/// An affiliation descriptor.
pub open spec fn affiliation_markup(aff: AffiliationDescriptor, ns: bool) -> Seq<char> {
    start_element_markup("md:AffiliationDescriptor"@, affiliation_attrs(aff, ns)) + opt_extensions_markup(aff.extensions)
        + concat_map(aff.affiliate_members@, texts_markup("md:AffiliateMember"@)) + concat_map(
        aff.key_descriptors@,
        key_descriptors_markup(),
    ) + end_element_markup("md:AffiliationDescriptor"@)
}

/// The roles of an entity, each list in turn, or its affiliation.
pub open spec fn roles_markup(roles: EntityRoles, ns: bool) -> Seq<char> {
    match roles {
        EntityRoles::Roles { idp_sso, sp_sso, authn_authority, attr_authority, pdp } => concat_map(
            idp_sso@,
            idps_markup(ns),
        ) + concat_map(sp_sso@, sps_markup(ns)) + concat_map(authn_authority@, authn_authorities_markup(ns))
            + concat_map(attr_authority@, attr_authorities_markup(ns)) + concat_map(pdp@, pdps_markup(ns)),
        EntityRoles::Affiliation(a) => affiliation_markup(a, ns),
    }
}

/// An additional metadata location.
pub open spec fn location_markup(aml: AdditionalMetadataLocation) -> Seq<char> {
    start_element_markup("md:AdditionalMetadataLocation"@, seq![("namespace"@, aml.namespace@)]) + text_markup(
        aml.location@,
    ) + end_element_markup("md:AdditionalMetadataLocation"@)
}

/// Additional metadata locations, each in turn.
pub open spec fn locations_markup() -> spec_fn(AdditionalMetadataLocation) -> Seq<char> {
    |a: AdditionalMetadataLocation| location_markup(a)
}

/// The attributes of an entity descriptor.
pub open spec fn entity_attrs(ed: EntityDescriptor, ns: bool) -> Seq<(Seq<char>, Seq<char>)> {
    ns_attrs_if(ns, true) + seq![("entityID"@, ed.entity_id@)] + opt_pair("ID"@, opt_string_view(ed.id)) + opt_pair(
        "validUntil"@,
        valid_until_text(ed.valid_until),
    ) + opt_pair("cacheDuration"@, opt_string_view(ed.cache_duration))
}

/// An entity descriptor, its roles declaring the namespaces when `ns` holds.
pub open spec fn entity_markup(ed: EntityDescriptor, ns: bool) -> Seq<char> {
    start_element_markup("md:EntityDescriptor"@, entity_attrs(ed, ns)) + opt_extensions_markup(ed.extensions)
        + roles_markup(ed.roles, ns) + opt_organization_markup(ed.organization) + concat_map(
        ed.contact_persons@,
        contacts_markup(),
    ) + concat_map(ed.additional_metadata_locations@, locations_markup()) + end_element_markup(
        "md:EntityDescriptor"@,
    )
}

/// The attributes of an entities descriptor.
pub open spec fn entities_attrs(es: EntitiesDescriptor, ns: bool) -> Seq<(Seq<char>, Seq<char>)> {
    ns_attrs_if(ns, true) + opt_pair("ID"@, opt_string_view(es.id)) + opt_pair(
        "validUntil"@,
        valid_until_text(es.valid_until),
    ) + opt_pair("cacheDuration"@, opt_string_view(es.cache_duration)) + opt_pair("Name"@, opt_string_view(es.name))
}

/// The first `n` children of a nested group: entities and groups, none
/// declaring the namespaces.
pub open spec fn nested_children_markup(es: EntitiesDescriptor, n: int) -> Seq<char>
    decreases es, n,
{
    if n <= 0 || n > es.children.len() {
        Seq::empty()
    } else {
        nested_children_markup(es, n - 1) + match es.children@[n - 1] {
            MetadataChild::Entity(e) => entity_markup(*e, false),
            MetadataChild::Entities(g) => start_element_markup("md:EntitiesDescriptor"@, entities_attrs(g, false))
                + opt_extensions_markup(g.extensions) + nested_children_markup(g, g.children.len() as int)
                + end_element_markup("md:EntitiesDescriptor"@),
        }
    }
}

/// A group nested in another, not declaring the namespaces.
pub open spec fn nested_entities_markup(es: EntitiesDescriptor) -> Seq<char> {
    start_element_markup("md:EntitiesDescriptor"@, entities_attrs(es, false)) + opt_extensions_markup(es.extensions)
        + nested_children_markup(es, es.children.len() as int) + end_element_markup("md:EntitiesDescriptor"@)
}

/// The first `n` children of a top-level group: entities declaring the
/// namespaces, nested groups not.
pub open spec fn top_children_markup(es: EntitiesDescriptor, n: int) -> Seq<char>
    decreases n,
{
    if n <= 0 || n > es.children.len() {
        Seq::empty()
    } else {
        top_children_markup(es, n - 1) + match es.children@[n - 1] {
            MetadataChild::Entity(e) => entity_markup(*e, true),
            MetadataChild::Entities(g) => nested_entities_markup(g),
        }
    }
}

/// A group written on its own.
pub open spec fn entities_markup(es: EntitiesDescriptor) -> Seq<char> {
    start_element_markup("md:EntitiesDescriptor"@, entities_attrs(es, true)) + opt_extensions_markup(es.extensions)
        + top_children_markup(es, es.children.len() as int) + end_element_markup("md:EntitiesDescriptor"@)
}

// ── Attribute lists ────────────────────────────────────────────────────────

/// Appends `k="v"`.
fn push_attr<'a>(attrs: &mut Vec<(&'a str, &'a str)>, k: &'a str, v: &'a str)
    ensures
        pairs_view(final(attrs)@) == pairs_view(old(attrs)@) + seq![(k@, v@)],
{
    let ghost before = attrs@;
    attrs.push((k, v));
    assert(pairs_view(attrs@) =~= pairs_view(before) + seq![(k@, v@)]);
}

/// Appends `k="v"` when a value is present.
fn push_opt_attr<'a>(attrs: &mut Vec<(&'a str, &'a str)>, k: &'a str, v: &'a Option<String>)
    ensures
        pairs_view(final(attrs)@) == pairs_view(old(attrs)@) + opt_pair(k@, opt_string_view(*v)),
{
    match v {
        Some(x) => push_attr(attrs, k, x.as_str()),
        None => {
            assert(pairs_view(attrs@) =~= pairs_view(attrs@) + Seq::<(Seq<char>, Seq<char>)>::empty());
        },
    }
}

/// `true` or `false`.
fn bool_str(b: bool) -> (r: &'static str)
    ensures
        r@ == bool_text(b),
{
    if b {
        "true"
    } else {
        "false"
    }
}

/// Appends the boolean attribute `k` when a value is present.
fn push_opt_bool_attr<'a>(attrs: &mut Vec<(&'a str, &'a str)>, k: &'a str, b: Option<bool>)
    ensures
        pairs_view(final(attrs)@) == pairs_view(old(attrs)@) + opt_bool_pair(k@, b),
{
    match b {
        Some(x) => push_attr(attrs, k, bool_str(x)),
        None => {
            assert(pairs_view(attrs@) =~= pairs_view(attrs@) + Seq::<(Seq<char>, Seq<char>)>::empty());
        },
    }
}

/// Appends the namespace declarations when `ns` holds.
fn push_ns_attrs<'a>(attrs: &mut Vec<(&'a str, &'a str)>, ns: bool, with_saml: bool)
    ensures
        pairs_view(final(attrs)@) == pairs_view(old(attrs)@) + ns_attrs_if(ns, with_saml),
{
    let ghost before = pairs_view(attrs@);
    if ns {
        push_attr(attrs, "xmlns:md", SAML_METADATA_NS);
        if with_saml {
            push_attr(attrs, "xmlns:saml", SAML_ASSERTION_NS);
        }
        push_attr(attrs, "xmlns:ds", XMLDSIG_NS);
        push_attr(attrs, "xmlns:xenc", XMLENC_NS);
        assert(pairs_view(attrs@) =~= before + ns_attrs_if(ns, with_saml));
    } else {
        assert(pairs_view(attrs@) =~= before + ns_attrs_if(ns, with_saml));
    }
}

/// The `validUntil` text of an optional instant.
fn valid_until_string(o: Option<i128>) -> (r: Option<String>)
    ensures
        opt_string_view(r) == valid_until_text(o),
{
    match o {
        Some(t) => rfc3339_string(t),
        None => None,
    }
}

/// The URIs joined by single spaces.
fn join_space(v: &Vec<String>) -> (r: String)
    ensures
        r@ == joined_space(strings_view(v@)),
{
    let ghost s = strings_view(v@);
    let mut out = String::new();
    let mut i: usize = 0;
    while i < v.len()
        invariant
            i <= v.len(),
            s == strings_view(v@),
            out@ == joined_space(s.take(i as int)),
        decreases v.len() - i,
    {
        assert(s.take(i + 1).drop_last() =~= s.take(i as int));
        assert(s.take(i + 1).last() == v@[i as int]@);
        if i > 0 {
            push_str(&mut out, " ");
            proof {
                reveal_strlit(" ");
            }
        } else {
            assert(s.take(i + 1) =~= seq![v@[0]@]);
        }
        push_str(&mut out, v[i].as_str());
        i = i + 1;
    }
    assert(s.take(i as int) =~= s);
    out
}

// ── Item writers ───────────────────────────────────────────────────────────

/// An endpoint as an empty `tag` element.
fn write_endpoint(w: &mut XmlBuffer, tag: &str, ep: &Endpoint)
    ensures
        final(w)@ == old(w)@ + (endpoints_markup(tag@))(*ep),
{
    let mut attrs: Vec<(&str, &str)> = Vec::new();
    push_attr(&mut attrs, "Binding", ep.binding.as_str());
    push_attr(&mut attrs, "Location", ep.location.as_str());
    push_opt_attr(&mut attrs, "ResponseLocation", &ep.response_location);
    assert(pairs_view(attrs@) =~= endpoint_attrs(*ep));
    w.empty_element(tag, attrs.as_slice());
}

/// An indexed endpoint as an empty `tag` element.
fn write_indexed_endpoint(w: &mut XmlBuffer, tag: &str, ep: &IndexedEndpoint)
    ensures
        final(w)@ == old(w)@ + (indexed_endpoints_markup(tag@))(*ep),
{
    let index = decimal_string_u64(ep.index as u64);
    let mut attrs: Vec<(&str, &str)> = Vec::new();
    push_attr(&mut attrs, "Binding", ep.endpoint.binding.as_str());
    push_attr(&mut attrs, "Location", ep.endpoint.location.as_str());
    push_attr(&mut attrs, "index", index.as_str());
    push_opt_attr(&mut attrs, "ResponseLocation", &ep.endpoint.response_location);
    push_opt_bool_attr(&mut attrs, "isDefault", ep.is_default);
    assert(pairs_view(attrs@) =~= indexed_endpoint_attrs(*ep));
    w.empty_element(tag, attrs.as_slice());
}

/// `<tag xml:lang="lang">value</tag>`.
fn write_localized(w: &mut XmlBuffer, tag: &str, lang: &str, value: &str)
    ensures
        final(w)@ == old(w)@ + localized_markup(tag@, lang@, value@),
{
    let ghost start = w@;
    let attrs: [(&str, &str); 1] = [("xml:lang", lang)];
    assert(pairs_view(attrs@) =~= seq![("xml:lang"@, lang@)]);
    w.start_element(tag, &attrs);
    w.text(value);
    w.end_element(tag);
    assert(w@ =~= start + localized_markup(tag@, lang@, value@));
}

/// A localized name as a `tag` element.
fn write_localized_name(w: &mut XmlBuffer, tag: &str, name: &LocalizedName)
    ensures
        final(w)@ == old(w)@ + (localized_names_markup(tag@))(*name),
{
    write_localized(w, tag, name.lang.as_str(), name.value.as_str());
}

/// A localized URI as a `tag` element.
fn write_localized_uri(w: &mut XmlBuffer, tag: &str, uri: &LocalizedUri)
    ensures
        final(w)@ == old(w)@ + (localized_uris_markup(tag@))(*uri),
{
    write_localized(w, tag, uri.lang.as_str(), uri.value.as_str());
}

/// `<tag>text</tag>`.
fn write_text_element(w: &mut XmlBuffer, tag: &str, text: &str)
    ensures
        final(w)@ == old(w)@ + text_element_markup(tag@, text@),
{
    let ghost start = w@;
    let none: [(&str, &str); 0] = [];
    assert(pairs_view(none@) =~= Seq::<(Seq<char>, Seq<char>)>::empty());
    w.start_element(tag, &none);
    w.text(text);
    w.end_element(tag);
    assert(w@ =~= start + text_element_markup(tag@, text@));
}

/// `<tag>text</tag>` when the text is present.
fn write_opt_text_element(w: &mut XmlBuffer, tag: &str, text: &Option<String>)
    ensures
        final(w)@ == old(w)@ + opt_text_element_markup(tag@, *text),
{
    match text {
        Some(t) => write_text_element(w, tag, t.as_str()),
        None => {
            assert(w@ =~= w@ + Seq::<char>::empty());
        },
    }
}

/// The extensions' raw XML, wrapped in `md:Extensions` unless it already
/// holds that element.
fn write_extensions(w: &mut XmlBuffer, ext: &Extensions)
    ensures
        final(w)@ == old(w)@ + extensions_markup(*ext),
{
    let ghost start = w@;
    if str_contains(ext.raw_xml.as_str(), "<md:Extensions") || str_contains(ext.raw_xml.as_str(), "<Extensions") {
        w.raw(ext.raw_xml.as_str());
    } else {
        let none: [(&str, &str); 0] = [];
        assert(pairs_view(none@) =~= Seq::<(Seq<char>, Seq<char>)>::empty());
        w.start_element("md:Extensions", &none);
        w.raw(ext.raw_xml.as_str());
        w.end_element("md:Extensions");
    }
    assert(w@ =~= start + extensions_markup(*ext));
}

/// Optional extensions.
fn write_opt_extensions(w: &mut XmlBuffer, ext: &Option<Extensions>)
    ensures
        final(w)@ == old(w)@ + opt_extensions_markup(*ext),
{
    match ext {
        Some(e) => write_extensions(w, e),
        None => {
            assert(w@ =~= w@ + Seq::<char>::empty());
        },
    }
}

/// An encryption method: with `xenc:KeySize` and `xenc:OAEPparams` children
/// when it has them, else empty.
fn write_encryption_method(w: &mut XmlBuffer, em: &EncryptionMethod)
    ensures
        final(w)@ == old(w)@ + (encryption_methods_markup())(*em),
{
    let ghost start = w@;
    let attrs: [(&str, &str); 1] = [("Algorithm", em.algorithm.as_str())];
    assert(pairs_view(attrs@) =~= seq![("Algorithm"@, em.algorithm@)]);
    if em.key_size.is_some() || em.oaep_params.is_some() {
        w.start_element("md:EncryptionMethod", &attrs);
        let ghost mid = w@;
        match em.key_size {
            Some(ks) => {
                let ks_str = decimal_string_u64(ks as u64);
                write_text_element(w, "xenc:KeySize", ks_str.as_str());
            },
            None => {
                assert(w@ =~= mid + Seq::<char>::empty());
            },
        }
        write_opt_text_element(w, "xenc:OAEPparams", &em.oaep_params);
        w.end_element("md:EncryptionMethod");
    } else {
        w.empty_element("md:EncryptionMethod", &attrs);
    }
    assert(w@ =~= start + encryption_method_markup(*em));
}

/// A key descriptor: its use, its raw `KeyInfo` and its encryption methods.
fn write_key_descriptor(w: &mut XmlBuffer, kd: &KeyDescriptor)
    ensures
        final(w)@ == old(w)@ + (key_descriptors_markup())(*kd),
{
    let ghost start = w@;
    let mut attrs: Vec<(&str, &str)> = Vec::new();
    match &kd.use_ {
        Some(u) => push_attr(&mut attrs, "use", u.as_str()),
        None => {},
    }
    assert(pairs_view(attrs@) =~= match kd.use_ {
        Some(u) => seq![("use"@, key_use_text(u))],
        None => Seq::<(Seq<char>, Seq<char>)>::empty(),
    });
    w.start_element("md:KeyDescriptor", attrs.as_slice());
    w.raw(kd.key_info_xml.as_str());
    write_encryption_methods(w, &kd.encryption_methods);
    w.end_element("md:KeyDescriptor");
    assert(w@ =~= start + key_descriptor_markup(*kd));
}

/// An organization.
fn write_organization(w: &mut XmlBuffer, org: &Organization)
    ensures
        final(w)@ == old(w)@ + organization_markup(*org),
{
    let ghost start = w@;
    let none: [(&str, &str); 0] = [];
    assert(pairs_view(none@) =~= Seq::<(Seq<char>, Seq<char>)>::empty());
    w.start_element("md:Organization", &none);
    write_opt_extensions(w, &org.extensions);
    write_localized_names(w, "md:OrganizationName", &org.organization_names);
    write_localized_names(w, "md:OrganizationDisplayName", &org.organization_display_names);
    write_localized_uris(w, "md:OrganizationURL", &org.organization_urls);
    w.end_element("md:Organization");
    assert(w@ =~= start + organization_markup(*org));
}

/// An optional organization.
fn write_opt_organization(w: &mut XmlBuffer, org: &Option<Organization>)
    ensures
        final(w)@ == old(w)@ + opt_organization_markup(*org),
{
    match org {
        Some(o) => write_organization(w, o),
        None => {
            assert(w@ =~= w@ + Seq::<char>::empty());
        },
    }
}

/// A contact person.
fn write_contact_person(w: &mut XmlBuffer, cp: &ContactPerson)
    ensures
        final(w)@ == old(w)@ + (contacts_markup())(*cp),
{
    let ghost start = w@;
    let attrs: [(&str, &str); 1] = [("contactType", cp.contact_type.as_str())];
    assert(pairs_view(attrs@) =~= seq![("contactType"@, contact_type_text(cp.contact_type))]);
    w.start_element("md:ContactPerson", &attrs);
    write_opt_extensions(w, &cp.extensions);
    write_opt_text_element(w, "md:Company", &cp.company);
    write_opt_text_element(w, "md:GivenName", &cp.given_name);
    write_opt_text_element(w, "md:SurName", &cp.sur_name);
    write_text_elements(w, "md:EmailAddress", &cp.email_addresses);
    write_text_elements(w, "md:TelephoneNumber", &cp.telephone_numbers);
    w.end_element("md:ContactPerson");
    assert(w@ =~= start + contact_markup(*cp));
}

/// The attributes of an attribute, appended.
fn push_attribute_attrs<'a>(attrs: &mut Vec<(&'a str, &'a str)>, a: &'a Attribute)
    ensures
        pairs_view(final(attrs)@) == pairs_view(old(attrs)@) + attribute_attrs(*a),
{
    let ghost before = pairs_view(attrs@);
    push_attr(attrs, "Name", a.name.as_str());
    push_opt_attr(attrs, "NameFormat", &a.name_format);
    push_opt_attr(attrs, "FriendlyName", &a.friendly_name);
    assert(pairs_view(attrs@) =~= before + attribute_attrs(*a));
}

/// A `saml:Attribute` with one `saml:AttributeValue` per value.
fn write_attribute(w: &mut XmlBuffer, a: &Attribute)
    ensures
        final(w)@ == old(w)@ + (attributes_markup())(*a),
{
    let ghost start = w@;
    let mut attrs: Vec<(&str, &str)> = Vec::new();
    push_attribute_attrs(&mut attrs, a);
    assert(pairs_view(attrs@) =~= attribute_attrs(*a));
    w.start_element("saml:Attribute", attrs.as_slice());
    write_text_elements(w, "saml:AttributeValue", &a.values);
    w.end_element("saml:Attribute");
    assert(w@ =~= start + attribute_markup(*a));
}

/// A requested attribute: empty when it carries no value, else with one
/// `saml:AttributeValue` per value.
fn write_requested_attribute(w: &mut XmlBuffer, ra: &RequestedAttribute)
    ensures
        final(w)@ == old(w)@ + (requested_attributes_markup())(*ra),
{
    let ghost start = w@;
    let mut attrs: Vec<(&str, &str)> = Vec::new();
    push_attribute_attrs(&mut attrs, &ra.attribute);
    push_opt_bool_attr(&mut attrs, "isRequired", ra.is_required);
    assert(pairs_view(attrs@) =~= attribute_attrs(ra.attribute) + opt_bool_pair("isRequired"@, ra.is_required));
    if ra.attribute.values.len() == 0 {
        w.empty_element("md:RequestedAttribute", attrs.as_slice());
    } else {
        w.start_element("md:RequestedAttribute", attrs.as_slice());
        write_text_elements(w, "saml:AttributeValue", &ra.attribute.values);
        w.end_element("md:RequestedAttribute");
    }
    assert(w@ =~= start + requested_attribute_markup(*ra));
}

/// An attribute consuming service.
fn write_attribute_consuming_service(w: &mut XmlBuffer, acs: &AttributeConsumingService)
    ensures
        final(w)@ == old(w)@ + (consuming_services_markup())(*acs),
{
    let ghost start = w@;
    let index = decimal_string_u64(acs.index as u64);
    let mut attrs: Vec<(&str, &str)> = Vec::new();
    push_attr(&mut attrs, "index", index.as_str());
    push_opt_bool_attr(&mut attrs, "isDefault", acs.is_default);
    assert(pairs_view(attrs@) =~= seq![("index"@, decimal_text(acs.index as nat))] + opt_bool_pair(
        "isDefault"@,
        acs.is_default,
    ));
    w.start_element("md:AttributeConsumingService", attrs.as_slice());
    write_localized_names(w, "md:ServiceName", &acs.service_names);
    write_localized_names(w, "md:ServiceDescription", &acs.service_descriptions);
    write_requested_attributes(w, &acs.requested_attributes);
    w.end_element("md:AttributeConsumingService");
    assert(w@ =~= start + consuming_service_markup(*acs));
}

/// An additional metadata location.
fn write_additional_location(w: &mut XmlBuffer, aml: &AdditionalMetadataLocation)
    ensures
        final(w)@ == old(w)@ + (locations_markup())(*aml),
{
    let ghost start = w@;
    let attrs: [(&str, &str); 1] = [("namespace", aml.namespace.as_str())];
    assert(pairs_view(attrs@) =~= seq![("namespace"@, aml.namespace@)]);
    w.start_element("md:AdditionalMetadataLocation", &attrs);
    w.text(aml.location.as_str());
    w.end_element("md:AdditionalMetadataLocation");
    assert(w@ =~= start + location_markup(*aml));
}

// ── Role descriptors ───────────────────────────────────────────────────────

/// Appends the optional attributes of a role descriptor: `ID`,
/// `validUntil` (its text given), `cacheDuration`, `errorURL`.
fn write_role_descriptor_base_attrs<'a>(
    base: &'a RoleDescriptorBase,
    attrs: &mut Vec<(&'a str, &'a str)>,
    valid_until_str: &'a Option<String>,
)
    requires
        opt_string_view(*valid_until_str) == valid_until_text(base.valid_until),
    ensures
        pairs_view(final(attrs)@) == pairs_view(old(attrs)@) + role_base_attrs(*base),
{
    let ghost before = pairs_view(attrs@);
    push_opt_attr(attrs, "ID", &base.id);
    push_opt_attr(attrs, "validUntil", valid_until_str);
    push_opt_attr(attrs, "cacheDuration", &base.cache_duration);
    push_opt_attr(attrs, "errorURL", &base.error_url);
    assert(pairs_view(attrs@) =~= before + role_base_attrs(*base));
}

/// The children every role descriptor starts with: extensions, key
/// descriptors, organization, contact persons.
fn write_role_descriptor_base_children(w: &mut XmlBuffer, base: &RoleDescriptorBase)
    ensures
        final(w)@ == old(w)@ + role_base_children_markup(*base),
{
    let ghost start = w@;
    write_opt_extensions(w, &base.extensions);
    write_key_descriptors(w, &base.key_descriptors);
    write_opt_organization(w, &base.organization);
    write_contact_persons(w, &base.contact_persons);
    assert(w@ =~= start + role_base_children_markup(*base));
}

/// The children every SSO descriptor starts with: the role descriptor's,
/// then artifact resolution, single logout and name ID management services
/// and name ID formats.
fn write_sso_descriptor_base_children(w: &mut XmlBuffer, sso: &SsoDescriptorBase)
    ensures
        final(w)@ == old(w)@ + sso_base_children_markup(*sso),
{
    let ghost start = w@;
    write_role_descriptor_base_children(w, &sso.base);
    write_indexed_endpoints(w, "md:ArtifactResolutionService", &sso.artifact_resolution_services);
    write_endpoints(w, "md:SingleLogoutService", &sso.single_logout_services);
    write_endpoints(w, "md:ManageNameIDService", &sso.manage_name_id_services);
    write_text_elements(w, "md:NameIDFormat", &sso.name_id_formats);
    assert(w@ =~= start + sso_base_children_markup(*sso));
}

/// The opening attributes of a role descriptor.
fn push_role_attrs<'a>(
    attrs: &mut Vec<(&'a str, &'a str)>,
    base: &'a RoleDescriptorBase,
    ns: bool,
    with_saml: bool,
    pse: &'a String,
    valid_until_str: &'a Option<String>,
)
    requires
        pse@ == joined_space(strings_view(base.protocol_support_enumeration@)),
        opt_string_view(*valid_until_str) == valid_until_text(base.valid_until),
    ensures
        pairs_view(final(attrs)@) == pairs_view(old(attrs)@) + role_attrs(*base, ns, with_saml),
{
    let ghost before = pairs_view(attrs@);
    push_ns_attrs(attrs, ns, with_saml);
    push_attr(attrs, "protocolSupportEnumeration", pse.as_str());
    write_role_descriptor_base_attrs(base, attrs, valid_until_str);
    assert(pairs_view(attrs@) =~= before + role_attrs(*base, ns, with_saml));
}

/// An IdP SSO descriptor, declaring the namespaces when `ns` holds.
#[verifier::rlimit(60)]
#[verifier::spinoff_prover]
fn write_idp_sso(w: &mut XmlBuffer, idp: &IdpSsoDescriptor, ns: bool)
    ensures
        final(w)@ == old(w)@ + (idps_markup(ns))(*idp),
{
    let ghost start = w@;
    let pse = join_space(&idp.sso_base.base.protocol_support_enumeration);
    let vu = valid_until_string(idp.sso_base.base.valid_until);
    let mut attrs: Vec<(&str, &str)> = Vec::new();
    push_role_attrs(&mut attrs, &idp.sso_base.base, ns, true, &pse, &vu);
    push_opt_bool_attr(&mut attrs, "WantAuthnRequestsSigned", idp.want_authn_requests_signed);
    w.start_element("md:IDPSSODescriptor", attrs.as_slice());
    write_sso_descriptor_base_children(w, &idp.sso_base);
    write_endpoints(w, "md:SingleSignOnService", &idp.single_sign_on_services);
    write_endpoints(w, "md:NameIDMappingService", &idp.name_id_mapping_services);
    write_endpoints(w, "md:AssertionIDRequestService", &idp.assertion_id_request_services);
    write_text_elements(w, "md:AttributeProfile", &idp.attribute_profiles);
    write_attributes(w, &idp.attributes);
    w.end_element("md:IDPSSODescriptor");
    assert(pairs_view(attrs@) =~= role_attrs(idp.sso_base.base, ns, true) + opt_bool_pair(
        "WantAuthnRequestsSigned"@,
        idp.want_authn_requests_signed,
    ));
    assert(w@ =~= start + idp_markup(*idp, ns));
}

/// An SP SSO descriptor, declaring the namespaces when `ns` holds.
#[verifier::rlimit(60)]
#[verifier::spinoff_prover]
fn write_sp_sso(w: &mut XmlBuffer, sp: &SpSsoDescriptor, ns: bool)
    ensures
        final(w)@ == old(w)@ + (sps_markup(ns))(*sp),
{
    let ghost start = w@;
    let pse = join_space(&sp.sso_base.base.protocol_support_enumeration);
    let vu = valid_until_string(sp.sso_base.base.valid_until);
    let mut attrs: Vec<(&str, &str)> = Vec::new();
    push_role_attrs(&mut attrs, &sp.sso_base.base, ns, true, &pse, &vu);
    push_opt_bool_attr(&mut attrs, "AuthnRequestsSigned", sp.authn_requests_signed);
    push_opt_bool_attr(&mut attrs, "WantAssertionsSigned", sp.want_assertions_signed);
    w.start_element("md:SPSSODescriptor", attrs.as_slice());
    write_sso_descriptor_base_children(w, &sp.sso_base);
    write_indexed_endpoints(w, "md:AssertionConsumerService", &sp.assertion_consumer_services);
    write_attribute_consuming_services(w, &sp.attribute_consuming_services);
    w.end_element("md:SPSSODescriptor");
    assert(pairs_view(attrs@) =~= role_attrs(sp.sso_base.base, ns, true) + opt_bool_pair(
        "AuthnRequestsSigned"@,
        sp.authn_requests_signed,
    ) + opt_bool_pair("WantAssertionsSigned"@, sp.want_assertions_signed));
    assert(w@ =~= start + sp_markup(*sp, ns));
}

/// An authentication authority descriptor, declaring the namespaces when
/// `ns` holds.
#[verifier::rlimit(60)]
#[verifier::spinoff_prover]
fn write_authn_authority(w: &mut XmlBuffer, aa: &AuthnAuthorityDescriptor, ns: bool)
    ensures
        final(w)@ == old(w)@ + (authn_authorities_markup(ns))(*aa),
{
    let ghost start = w@;
    let pse = join_space(&aa.base.protocol_support_enumeration);
    let vu = valid_until_string(aa.base.valid_until);
    let mut attrs: Vec<(&str, &str)> = Vec::new();
    push_role_attrs(&mut attrs, &aa.base, ns, false, &pse, &vu);
    w.start_element("md:AuthnAuthorityDescriptor", attrs.as_slice());
    write_role_descriptor_base_children(w, &aa.base);
    write_endpoints(w, "md:AuthnQueryService", &aa.authn_query_services);
    write_endpoints(w, "md:AssertionIDRequestService", &aa.assertion_id_request_services);
    write_text_elements(w, "md:NameIDFormat", &aa.name_id_formats);
    w.end_element("md:AuthnAuthorityDescriptor");
    assert(pairs_view(attrs@) =~= role_attrs(aa.base, ns, false));
    assert(w@ =~= start + authn_authority_markup(*aa, ns));
}

/// A PDP descriptor, declaring the namespaces when `ns` holds.
#[verifier::rlimit(60)]
#[verifier::spinoff_prover]
fn write_pdp(w: &mut XmlBuffer, pdp: &PdpDescriptor, ns: bool)
    ensures
        final(w)@ == old(w)@ + (pdps_markup(ns))(*pdp),
{
    let ghost start = w@;
    let pse = join_space(&pdp.base.protocol_support_enumeration);
    let vu = valid_until_string(pdp.base.valid_until);
    let mut attrs: Vec<(&str, &str)> = Vec::new();
    push_role_attrs(&mut attrs, &pdp.base, ns, false, &pse, &vu);
    w.start_element("md:PDPDescriptor", attrs.as_slice());
    write_role_descriptor_base_children(w, &pdp.base);
    write_endpoints(w, "md:AuthzService", &pdp.authz_services);
    write_endpoints(w, "md:AssertionIDRequestService", &pdp.assertion_id_request_services);
    write_text_elements(w, "md:NameIDFormat", &pdp.name_id_formats);
    w.end_element("md:PDPDescriptor");
    assert(pairs_view(attrs@) =~= role_attrs(pdp.base, ns, false));
    assert(w@ =~= start + pdp_markup(*pdp, ns));
}

/// An attribute authority descriptor, declaring the namespaces when `ns`
/// holds.
#[verifier::rlimit(60)]
#[verifier::spinoff_prover]
fn write_attr_authority(w: &mut XmlBuffer, aa: &AttributeAuthorityDescriptor, ns: bool)
    ensures
        final(w)@ == old(w)@ + (attr_authorities_markup(ns))(*aa),
{
    let ghost start = w@;
    let pse = join_space(&aa.base.protocol_support_enumeration);
    let vu = valid_until_string(aa.base.valid_until);
    let mut attrs: Vec<(&str, &str)> = Vec::new();
    push_role_attrs(&mut attrs, &aa.base, ns, true, &pse, &vu);
    w.start_element("md:AttributeAuthorityDescriptor", attrs.as_slice());
    write_role_descriptor_base_children(w, &aa.base);
    write_endpoints(w, "md:AttributeService", &aa.attribute_services);
    write_endpoints(w, "md:AssertionIDRequestService", &aa.assertion_id_request_services);
    write_text_elements(w, "md:NameIDFormat", &aa.name_id_formats);
    write_text_elements(w, "md:AttributeProfile", &aa.attribute_profiles);
    write_attributes(w, &aa.attributes);
    w.end_element("md:AttributeAuthorityDescriptor");
    assert(pairs_view(attrs@) =~= role_attrs(aa.base, ns, true));
    assert(w@ =~= start + attr_authority_markup(*aa, ns));
}

/// An affiliation descriptor, declaring the namespaces when `ns` holds.
fn write_affiliation(w: &mut XmlBuffer, aff: &AffiliationDescriptor, ns: bool)
    ensures
        final(w)@ == old(w)@ + affiliation_markup(*aff, ns),
{
    let ghost start = w@;
    let vu = valid_until_string(aff.valid_until);
    let mut attrs: Vec<(&str, &str)> = Vec::new();
    push_ns_attrs(&mut attrs, ns, false);
    push_attr(&mut attrs, "affiliationOwnerID", aff.affiliation_owner_id.as_str());
    push_opt_attr(&mut attrs, "ID", &aff.id);
    push_opt_attr(&mut attrs, "validUntil", &vu);
    push_opt_attr(&mut attrs, "cacheDuration", &aff.cache_duration);
    assert(pairs_view(attrs@) =~= affiliation_attrs(*aff, ns));
    w.start_element("md:AffiliationDescriptor", attrs.as_slice());
    write_opt_extensions(w, &aff.extensions);
    write_text_elements(w, "md:AffiliateMember", &aff.affiliate_members);
    write_key_descriptors(w, &aff.key_descriptors);
    w.end_element("md:AffiliationDescriptor");
    assert(w@ =~= start + affiliation_markup(*aff, ns));
}

/// The roles of an entity, each list in turn, or its affiliation.
#[verifier::rlimit(60)]
#[verifier::spinoff_prover]
fn write_roles(w: &mut XmlBuffer, roles: &EntityRoles, ns: bool)
    ensures
        final(w)@ == old(w)@ + roles_markup(*roles, ns),
{
    let ghost start = w@;
    match roles {
        EntityRoles::Roles { idp_sso, sp_sso, authn_authority, attr_authority, pdp } => {
            write_idp_sso_list(w, ns, idp_sso);
            write_sp_sso_list(w, ns, sp_sso);
            write_authn_authority_list(w, ns, authn_authority);
            write_attr_authority_list(w, ns, attr_authority);
            write_pdp_list(w, ns, pdp);
        },
        EntityRoles::Affiliation(a) => write_affiliation(w, a, ns),
    }
    assert(w@ =~= start + roles_markup(*roles, ns));
}

/// An entity descriptor, declaring the namespaces when `ns` holds.
#[verifier::rlimit(60)]
#[verifier::spinoff_prover]
fn write_entity(w: &mut XmlBuffer, ed: &EntityDescriptor, ns: bool)
    ensures
        final(w)@ == old(w)@ + entity_markup(*ed, ns),
{
    let ghost start = w@;
    let vu = valid_until_string(ed.valid_until);
    let mut attrs: Vec<(&str, &str)> = Vec::new();
    push_ns_attrs(&mut attrs, ns, true);
    push_attr(&mut attrs, "entityID", ed.entity_id.as_str());
    push_opt_attr(&mut attrs, "ID", &ed.id);
    push_opt_attr(&mut attrs, "validUntil", &vu);
    push_opt_attr(&mut attrs, "cacheDuration", &ed.cache_duration);
    assert(pairs_view(attrs@) =~= entity_attrs(*ed, ns));
    w.start_element("md:EntityDescriptor", attrs.as_slice());
    write_opt_extensions(w, &ed.extensions);
    write_roles(w, &ed.roles, ns);
    write_opt_organization(w, &ed.organization);
    write_contact_persons(w, &ed.contact_persons);
    write_additional_locations(w, &ed.additional_metadata_locations);
    w.end_element("md:EntityDescriptor");
    assert(w@ =~= start + entity_markup(*ed, ns));
}

/// The opening tag of an entities descriptor and its extensions.
fn write_entities_open(w: &mut XmlBuffer, es: &EntitiesDescriptor, ns: bool)
    ensures
        final(w)@ == old(w)@ + start_element_markup("md:EntitiesDescriptor"@, entities_attrs(*es, ns))
            + opt_extensions_markup(es.extensions),
{
    let ghost start = w@;
    let vu = valid_until_string(es.valid_until);
    let mut attrs: Vec<(&str, &str)> = Vec::new();
    push_ns_attrs(&mut attrs, ns, true);
    push_opt_attr(&mut attrs, "ID", &es.id);
    push_opt_attr(&mut attrs, "validUntil", &vu);
    push_opt_attr(&mut attrs, "cacheDuration", &es.cache_duration);
    push_opt_attr(&mut attrs, "Name", &es.name);
    assert(pairs_view(attrs@) =~= entities_attrs(*es, ns));
    w.start_element("md:EntitiesDescriptor", attrs.as_slice());
    write_opt_extensions(w, &es.extensions);
    assert(w@ =~= start + start_element_markup("md:EntitiesDescriptor"@, entities_attrs(*es, ns))
        + opt_extensions_markup(es.extensions));
}

/// Each endpoint of `v` as an empty `tag` element.
fn write_endpoints(w: &mut XmlBuffer, tag: &str, v: &Vec<Endpoint>)
    ensures
        final(w)@ == old(w)@ + concat_map(v@, endpoints_markup(tag@)),
{
    let ghost start = w@;
    let mut i: usize = 0;
    while i < v.len()
        invariant
            i <= v.len(),
            w@ == start + concat_map(v@.take(i as int), endpoints_markup(tag@)),
        decreases v.len() - i,
    {
        proof {
            lemma_concat_map_step(v@, endpoints_markup(tag@), i as int);
        }
        let ghost before = w@;
        write_endpoint(w, tag, &v[i]);
        assert(w@ =~= start + concat_map(v@.take(i + 1), endpoints_markup(tag@)));
        i = i + 1;
    }
    assert(v@.take(i as int) =~= v@);
}

/// Each indexed endpoint of `v` as an empty `tag` element.
fn write_indexed_endpoints(w: &mut XmlBuffer, tag: &str, v: &Vec<IndexedEndpoint>)
    ensures
        final(w)@ == old(w)@ + concat_map(v@, indexed_endpoints_markup(tag@)),
{
    let ghost start = w@;
    let mut i: usize = 0;
    while i < v.len()
        invariant
            i <= v.len(),
            w@ == start + concat_map(v@.take(i as int), indexed_endpoints_markup(tag@)),
        decreases v.len() - i,
    {
        proof {
            lemma_concat_map_step(v@, indexed_endpoints_markup(tag@), i as int);
        }
        let ghost before = w@;
        write_indexed_endpoint(w, tag, &v[i]);
        assert(w@ =~= start + concat_map(v@.take(i + 1), indexed_endpoints_markup(tag@)));
        i = i + 1;
    }
    assert(v@.take(i as int) =~= v@);
}

/// Each string of `v` as a `tag` element.
fn write_text_elements(w: &mut XmlBuffer, tag: &str, v: &Vec<String>)
    ensures
        final(w)@ == old(w)@ + concat_map(v@, texts_markup(tag@)),
{
    let ghost start = w@;
    let mut i: usize = 0;
    while i < v.len()
        invariant
            i <= v.len(),
            w@ == start + concat_map(v@.take(i as int), texts_markup(tag@)),
        decreases v.len() - i,
    {
        proof {
            lemma_concat_map_step(v@, texts_markup(tag@), i as int);
        }
        let ghost before = w@;
        write_text_element(w, tag, v[i].as_str());
        assert(w@ =~= start + concat_map(v@.take(i + 1), texts_markup(tag@)));
        i = i + 1;
    }
    assert(v@.take(i as int) =~= v@);
}

/// Each localized name of `v` as a `tag` element.
fn write_localized_names(w: &mut XmlBuffer, tag: &str, v: &Vec<LocalizedName>)
    ensures
        final(w)@ == old(w)@ + concat_map(v@, localized_names_markup(tag@)),
{
    let ghost start = w@;
    let mut i: usize = 0;
    while i < v.len()
        invariant
            i <= v.len(),
            w@ == start + concat_map(v@.take(i as int), localized_names_markup(tag@)),
        decreases v.len() - i,
    {
        proof {
            lemma_concat_map_step(v@, localized_names_markup(tag@), i as int);
        }
        let ghost before = w@;
        write_localized_name(w, tag, &v[i]);
        assert(w@ =~= start + concat_map(v@.take(i + 1), localized_names_markup(tag@)));
        i = i + 1;
    }
    assert(v@.take(i as int) =~= v@);
}

/// Each localized URI of `v` as a `tag` element.
fn write_localized_uris(w: &mut XmlBuffer, tag: &str, v: &Vec<LocalizedUri>)
    ensures
        final(w)@ == old(w)@ + concat_map(v@, localized_uris_markup(tag@)),
{
    let ghost start = w@;
    let mut i: usize = 0;
    while i < v.len()
        invariant
            i <= v.len(),
            w@ == start + concat_map(v@.take(i as int), localized_uris_markup(tag@)),
        decreases v.len() - i,
    {
        proof {
            lemma_concat_map_step(v@, localized_uris_markup(tag@), i as int);
        }
        let ghost before = w@;
        write_localized_uri(w, tag, &v[i]);
        assert(w@ =~= start + concat_map(v@.take(i + 1), localized_uris_markup(tag@)));
        i = i + 1;
    }
    assert(v@.take(i as int) =~= v@);
}

/// Each encryption method of `v`.
fn write_encryption_methods(w: &mut XmlBuffer, v: &Vec<EncryptionMethod>)
    ensures
        final(w)@ == old(w)@ + concat_map(v@, encryption_methods_markup()),
{
    let ghost start = w@;
    let mut i: usize = 0;
    while i < v.len()
        invariant
            i <= v.len(),
            w@ == start + concat_map(v@.take(i as int), encryption_methods_markup()),
        decreases v.len() - i,
    {
        proof {
            lemma_concat_map_step(v@, encryption_methods_markup(), i as int);
        }
        let ghost before = w@;
        write_encryption_method(w, &v[i]);
        assert(w@ =~= start + concat_map(v@.take(i + 1), encryption_methods_markup()));
        i = i + 1;
    }
    assert(v@.take(i as int) =~= v@);
}

/// Each key descriptor of `v`.
fn write_key_descriptors(w: &mut XmlBuffer, v: &Vec<KeyDescriptor>)
    ensures
        final(w)@ == old(w)@ + concat_map(v@, key_descriptors_markup()),
{
    let ghost start = w@;
    let mut i: usize = 0;
    while i < v.len()
        invariant
            i <= v.len(),
            w@ == start + concat_map(v@.take(i as int), key_descriptors_markup()),
        decreases v.len() - i,
    {
        proof {
            lemma_concat_map_step(v@, key_descriptors_markup(), i as int);
        }
        let ghost before = w@;
        write_key_descriptor(w, &v[i]);
        assert(w@ =~= start + concat_map(v@.take(i + 1), key_descriptors_markup()));
        i = i + 1;
    }
    assert(v@.take(i as int) =~= v@);
}

/// Each contact person of `v`.
fn write_contact_persons(w: &mut XmlBuffer, v: &Vec<ContactPerson>)
    ensures
        final(w)@ == old(w)@ + concat_map(v@, contacts_markup()),
{
    let ghost start = w@;
    let mut i: usize = 0;
    while i < v.len()
        invariant
            i <= v.len(),
            w@ == start + concat_map(v@.take(i as int), contacts_markup()),
        decreases v.len() - i,
    {
        proof {
            lemma_concat_map_step(v@, contacts_markup(), i as int);
        }
        let ghost before = w@;
        write_contact_person(w, &v[i]);
        assert(w@ =~= start + concat_map(v@.take(i + 1), contacts_markup()));
        i = i + 1;
    }
    assert(v@.take(i as int) =~= v@);
}

/// Each attribute of `v` as a `saml:Attribute`.
fn write_attributes(w: &mut XmlBuffer, v: &Vec<Attribute>)
    ensures
        final(w)@ == old(w)@ + concat_map(v@, attributes_markup()),
{
    let ghost start = w@;
    let mut i: usize = 0;
    while i < v.len()
        invariant
            i <= v.len(),
            w@ == start + concat_map(v@.take(i as int), attributes_markup()),
        decreases v.len() - i,
    {
        proof {
            lemma_concat_map_step(v@, attributes_markup(), i as int);
        }
        let ghost before = w@;
        write_attribute(w, &v[i]);
        assert(w@ =~= start + concat_map(v@.take(i + 1), attributes_markup()));
        i = i + 1;
    }
    assert(v@.take(i as int) =~= v@);
}

/// Each requested attribute of `v`.
fn write_requested_attributes(w: &mut XmlBuffer, v: &Vec<RequestedAttribute>)
    ensures
        final(w)@ == old(w)@ + concat_map(v@, requested_attributes_markup()),
{
    let ghost start = w@;
    let mut i: usize = 0;
    while i < v.len()
        invariant
            i <= v.len(),
            w@ == start + concat_map(v@.take(i as int), requested_attributes_markup()),
        decreases v.len() - i,
    {
        proof {
            lemma_concat_map_step(v@, requested_attributes_markup(), i as int);
        }
        let ghost before = w@;
        write_requested_attribute(w, &v[i]);
        assert(w@ =~= start + concat_map(v@.take(i + 1), requested_attributes_markup()));
        i = i + 1;
    }
    assert(v@.take(i as int) =~= v@);
}

/// Each attribute consuming service of `v`.
fn write_attribute_consuming_services(w: &mut XmlBuffer, v: &Vec<AttributeConsumingService>)
    ensures
        final(w)@ == old(w)@ + concat_map(v@, consuming_services_markup()),
{
    let ghost start = w@;
    let mut i: usize = 0;
    while i < v.len()
        invariant
            i <= v.len(),
            w@ == start + concat_map(v@.take(i as int), consuming_services_markup()),
        decreases v.len() - i,
    {
        proof {
            lemma_concat_map_step(v@, consuming_services_markup(), i as int);
        }
        let ghost before = w@;
        write_attribute_consuming_service(w, &v[i]);
        assert(w@ =~= start + concat_map(v@.take(i + 1), consuming_services_markup()));
        i = i + 1;
    }
    assert(v@.take(i as int) =~= v@);
}

/// Each additional metadata location of `v`.
fn write_additional_locations(w: &mut XmlBuffer, v: &Vec<AdditionalMetadataLocation>)
    ensures
        final(w)@ == old(w)@ + concat_map(v@, locations_markup()),
{
    let ghost start = w@;
    let mut i: usize = 0;
    while i < v.len()
        invariant
            i <= v.len(),
            w@ == start + concat_map(v@.take(i as int), locations_markup()),
        decreases v.len() - i,
    {
        proof {
            lemma_concat_map_step(v@, locations_markup(), i as int);
        }
        let ghost before = w@;
        write_additional_location(w, &v[i]);
        assert(w@ =~= start + concat_map(v@.take(i + 1), locations_markup()));
        i = i + 1;
    }
    assert(v@.take(i as int) =~= v@);
}

/// Each IdP SSO descriptor of `v`.
fn write_idp_sso_list(w: &mut XmlBuffer, ns: bool, v: &Vec<IdpSsoDescriptor>)
    ensures
        final(w)@ == old(w)@ + concat_map(v@, idps_markup(ns)),
{
    let ghost start = w@;
    let mut i: usize = 0;
    while i < v.len()
        invariant
            i <= v.len(),
            w@ == start + concat_map(v@.take(i as int), idps_markup(ns)),
        decreases v.len() - i,
    {
        proof {
            lemma_concat_map_step(v@, idps_markup(ns), i as int);
        }
        let ghost before = w@;
        write_idp_sso(w, &v[i], ns);
        assert(w@ =~= start + concat_map(v@.take(i + 1), idps_markup(ns)));
        i = i + 1;
    }
    assert(v@.take(i as int) =~= v@);
}

/// Each SP SSO descriptor of `v`.
fn write_sp_sso_list(w: &mut XmlBuffer, ns: bool, v: &Vec<SpSsoDescriptor>)
    ensures
        final(w)@ == old(w)@ + concat_map(v@, sps_markup(ns)),
{
    let ghost start = w@;
    let mut i: usize = 0;
    while i < v.len()
        invariant
            i <= v.len(),
            w@ == start + concat_map(v@.take(i as int), sps_markup(ns)),
        decreases v.len() - i,
    {
        proof {
            lemma_concat_map_step(v@, sps_markup(ns), i as int);
        }
        let ghost before = w@;
        write_sp_sso(w, &v[i], ns);
        assert(w@ =~= start + concat_map(v@.take(i + 1), sps_markup(ns)));
        i = i + 1;
    }
    assert(v@.take(i as int) =~= v@);
}

/// Each authentication authority descriptor of `v`.
fn write_authn_authority_list(w: &mut XmlBuffer, ns: bool, v: &Vec<AuthnAuthorityDescriptor>)
    ensures
        final(w)@ == old(w)@ + concat_map(v@, authn_authorities_markup(ns)),
{
    let ghost start = w@;
    let mut i: usize = 0;
    while i < v.len()
        invariant
            i <= v.len(),
            w@ == start + concat_map(v@.take(i as int), authn_authorities_markup(ns)),
        decreases v.len() - i,
    {
        proof {
            lemma_concat_map_step(v@, authn_authorities_markup(ns), i as int);
        }
        let ghost before = w@;
        write_authn_authority(w, &v[i], ns);
        assert(w@ =~= start + concat_map(v@.take(i + 1), authn_authorities_markup(ns)));
        i = i + 1;
    }
    assert(v@.take(i as int) =~= v@);
}

/// Each attribute authority descriptor of `v`.
fn write_attr_authority_list(w: &mut XmlBuffer, ns: bool, v: &Vec<AttributeAuthorityDescriptor>)
    ensures
        final(w)@ == old(w)@ + concat_map(v@, attr_authorities_markup(ns)),
{
    let ghost start = w@;
    let mut i: usize = 0;
    while i < v.len()
        invariant
            i <= v.len(),
            w@ == start + concat_map(v@.take(i as int), attr_authorities_markup(ns)),
        decreases v.len() - i,
    {
        proof {
            lemma_concat_map_step(v@, attr_authorities_markup(ns), i as int);
        }
        let ghost before = w@;
        write_attr_authority(w, &v[i], ns);
        assert(w@ =~= start + concat_map(v@.take(i + 1), attr_authorities_markup(ns)));
        i = i + 1;
    }
    assert(v@.take(i as int) =~= v@);
}

/// Each PDP descriptor of `v`.
fn write_pdp_list(w: &mut XmlBuffer, ns: bool, v: &Vec<PdpDescriptor>)
    ensures
        final(w)@ == old(w)@ + concat_map(v@, pdps_markup(ns)),
{
    let ghost start = w@;
    let mut i: usize = 0;
    while i < v.len()
        invariant
            i <= v.len(),
            w@ == start + concat_map(v@.take(i as int), pdps_markup(ns)),
        decreases v.len() - i,
    {
        proof {
            lemma_concat_map_step(v@, pdps_markup(ns), i as int);
        }
        let ghost before = w@;
        write_pdp(w, &v[i], ns);
        assert(w@ =~= start + concat_map(v@.take(i + 1), pdps_markup(ns)));
        i = i + 1;
    }
    assert(v@.take(i as int) =~= v@);
}

/// An IdP SSO descriptor nested in an entity (no namespace declarations).
fn write_idp_sso_nested(w: &mut XmlBuffer, idp: &IdpSsoDescriptor)
    ensures
        final(w)@ == old(w)@ + idp_markup(*idp, false),
{
    write_idp_sso(w, idp, false)
}

/// An SP SSO descriptor nested in an entity (no namespace declarations).
fn write_sp_sso_nested(w: &mut XmlBuffer, sp: &SpSsoDescriptor)
    ensures
        final(w)@ == old(w)@ + sp_markup(*sp, false),
{
    write_sp_sso(w, sp, false)
}

/// An authentication authority descriptor nested in an entity.
fn write_authn_authority_nested(w: &mut XmlBuffer, aa: &AuthnAuthorityDescriptor)
    ensures
        final(w)@ == old(w)@ + authn_authority_markup(*aa, false),
{
    write_authn_authority(w, aa, false)
}

/// An attribute authority descriptor nested in an entity.
fn write_attr_authority_nested(w: &mut XmlBuffer, aa: &AttributeAuthorityDescriptor)
    ensures
        final(w)@ == old(w)@ + attr_authority_markup(*aa, false),
{
    write_attr_authority(w, aa, false)
}

/// A PDP descriptor nested in an entity.
fn write_pdp_nested(w: &mut XmlBuffer, pdp: &PdpDescriptor)
    ensures
        final(w)@ == old(w)@ + pdp_markup(*pdp, false),
{
    write_pdp(w, pdp, false)
}

/// An affiliation descriptor nested in an entity.
fn write_affiliation_nested(w: &mut XmlBuffer, aff: &AffiliationDescriptor)
    ensures
        final(w)@ == old(w)@ + affiliation_markup(*aff, false),
{
    write_affiliation(w, aff, false)
}

/// An entity descriptor nested in an entities descriptor: neither it nor
/// its roles declare the namespaces again.
pub fn write_entity_descriptor_nested(w: &mut XmlBuffer, ed: &EntityDescriptor)
    ensures
        final(w)@ == old(w)@ + entity_markup(*ed, false),
{
    write_entity(w, ed, false)
}

/// An entities descriptor nested in another: its children follow, entities
/// and groups alike written without namespace declarations.
pub fn write_entities_descriptor_nested(w: &mut XmlBuffer, es: &EntitiesDescriptor)
    ensures
        final(w)@ == old(w)@ + nested_entities_markup(*es),
    decreases *es,
{
    let ghost start = w@;
    write_entities_open(w, es, false);
    let ghost opened = w@;
    let mut i: usize = 0;
    while i < es.children.len()
        invariant
            i <= es.children.len(),
            w@ == opened + nested_children_markup(*es, i as int),
        decreases es.children.len() - i,
    {
        let ghost before = w@;
        match &es.children[i] {
            MetadataChild::Entity(e) => {
                write_entity_descriptor_nested(w, e);
            },
            MetadataChild::Entities(g) => {
                proof {
                    assert(decreases_to!(*es => es.children@[i as int]));
                }
                write_entities_descriptor_nested(w, g);
            },
        }
        assert(w@ =~= opened + nested_children_markup(*es, i + 1));
        i = i + 1;
    }
    w.end_element("md:EntitiesDescriptor");
    assert(w@ =~= start + nested_entities_markup(*es));
}

impl IdpSsoDescriptor {
    /// Writes `md:IDPSSODescriptor` with the namespace declarations.
    pub fn to_xml(&self, w: &mut XmlBuffer)
        ensures
            final(w)@ == old(w)@ + idp_markup(*self, true),
    {
        write_idp_sso(w, self, true)
    }
}

impl SpSsoDescriptor {
    /// Writes `md:SPSSODescriptor` with the namespace declarations.
    pub fn to_xml(&self, w: &mut XmlBuffer)
        ensures
            final(w)@ == old(w)@ + sp_markup(*self, true),
    {
        write_sp_sso(w, self, true)
    }
}

impl AuthnAuthorityDescriptor {
    /// Writes `md:AuthnAuthorityDescriptor` with the namespace declarations.
    pub fn to_xml(&self, w: &mut XmlBuffer)
        ensures
            final(w)@ == old(w)@ + authn_authority_markup(*self, true),
    {
        write_authn_authority(w, self, true)
    }
}

impl PdpDescriptor {
    /// Writes `md:PDPDescriptor` with the namespace declarations.
    pub fn to_xml(&self, w: &mut XmlBuffer)
        ensures
            final(w)@ == old(w)@ + pdp_markup(*self, true),
    {
        write_pdp(w, self, true)
    }
}

impl AttributeAuthorityDescriptor {
    /// Writes `md:AttributeAuthorityDescriptor` with the namespace
    /// declarations.
    pub fn to_xml(&self, w: &mut XmlBuffer)
        ensures
            final(w)@ == old(w)@ + attr_authority_markup(*self, true),
    {
        write_attr_authority(w, self, true)
    }
}

impl AffiliationDescriptor {
    /// Writes `md:AffiliationDescriptor` with the namespace declarations.
    pub fn to_xml(&self, w: &mut XmlBuffer)
        ensures
            final(w)@ == old(w)@ + affiliation_markup(*self, true),
    {
        write_affiliation(w, self, true)
    }
}

impl EntityDescriptor {
    /// Writes `md:EntityDescriptor` with the namespace declarations, each of
    /// its role descriptors declaring them too.
    pub fn to_xml(&self, w: &mut XmlBuffer)
        ensures
            final(w)@ == old(w)@ + entity_markup(*self, true),
    {
        write_entity(w, self, true)
    }
}

impl EntitiesDescriptor {
    /// Writes `md:EntitiesDescriptor` with the namespace declarations: its
    /// entity children declare them too, its nested groups do not.
    pub fn to_xml(&self, w: &mut XmlBuffer)
        ensures
            final(w)@ == old(w)@ + entities_markup(*self),
    {
        let ghost start = w@;
        write_entities_open(w, self, true);
        let ghost opened = w@;
        let mut i: usize = 0;
        while i < self.children.len()
            invariant
                i <= self.children.len(),
                w@ == opened + top_children_markup(*self, i as int),
            decreases self.children.len() - i,
        {
            match &self.children[i] {
                MetadataChild::Entity(e) => {
                    e.to_xml(w);
                },
                MetadataChild::Entities(g) => {
                    write_entities_descriptor_nested(w, g);
                },
            }
            assert(w@ =~= opened + top_children_markup(*self, i + 1));
            i = i + 1;
        }
        w.end_element("md:EntitiesDescriptor");
        assert(w@ =~= start + entities_markup(*self));
    }
}

} // verus!
