use gamlastan::metadata::types::endpoint::{Endpoint, IndexedEndpoint};
use gamlastan::metadata::types::idp::IdpSsoDescriptor;
use gamlastan::metadata::types::key_descriptor::KeyDescriptor;
use gamlastan::metadata::types::contact::{ContactPersonRef, ContactType};
use gamlastan::metadata::types::localized::{LocalizedNameRef, LocalizedUriRef};
use gamlastan::metadata::types::organization::OrganizationRef;
use gamlastan::metadata::types::role_descriptor::{RoleDescriptorBase, RoleDescriptorBaseRef, SsoDescriptorBase};
use gamlastan::metadata::types::sp::SpSsoDescriptor;

const REDIRECT: &str = "urn:oasis:names:tc:SAML:2.0:bindings:HTTP-Redirect";
const POST: &str = "urn:oasis:names:tc:SAML:2.0:bindings:HTTP-POST";

fn sso_base(key_descriptors: Vec<KeyDescriptor>) -> SsoDescriptorBase {
    let mut base = RoleDescriptorBase::new(vec!["urn:oasis:names:tc:SAML:2.0:protocol".to_string()]);
    base.key_descriptors = key_descriptors;
    SsoDescriptorBase {
        base,
        artifact_resolution_services: vec![],
        single_logout_services: vec![],
        manage_name_id_services: vec![],
        name_id_formats: vec![],
    }
}

fn idp(key_descriptors: Vec<KeyDescriptor>, sso: Vec<Endpoint>) -> IdpSsoDescriptor {
    IdpSsoDescriptor {
        sso_base: sso_base(key_descriptors),
        want_authn_requests_signed: Some(true),
        single_sign_on_services: sso,
        name_id_mapping_services: vec![],
        assertion_id_request_services: vec![],
        attribute_profiles: vec![],
        attributes: vec![],
    }
}

fn sp_with_keys(key_descriptors: Vec<KeyDescriptor>) -> SpSsoDescriptor {
    SpSsoDescriptor {
        sso_base: sso_base(key_descriptors),
        authn_requests_signed: Some(true),
        want_assertions_signed: Some(true),
        assertion_consumer_services: vec![IndexedEndpoint::new_default(
            Endpoint::new(POST, "https://sp.example.com/acs"),
            0,
        )],
        attribute_consuming_services: vec![],
    }
}

fn key_info_with(b64: &str) -> String {
    format!(
        "<ds:KeyInfo xmlns:ds=\"http://www.w3.org/2000/09/xmldsig#\">\
         <ds:X509Data><ds:X509Certificate>{b64}</ds:X509Certificate></ds:X509Data>\
         </ds:KeyInfo>"
    )
}

#[test]
fn test_idp_sso_descriptor_basic() {
    let descriptor = idp(vec![], vec![Endpoint::new(REDIRECT, "https://idp.example.com/sso")]);
    assert_eq!(descriptor.want_authn_requests_signed, Some(true));
    assert_eq!(descriptor.single_sign_on_services.len(), 1);
}

#[test]
fn test_single_sign_on_service_selection() {
    let descriptor = idp(
        vec![],
        vec![
            Endpoint::new(POST, "https://idp.example.com/sso/post"),
            Endpoint::new(REDIRECT, "https://idp.example.com/sso/redirect"),
        ],
    );
    assert_eq!(
        descriptor.single_sign_on_service(REDIRECT).unwrap().location,
        "https://idp.example.com/sso/redirect"
    );
    assert!(descriptor
        .single_sign_on_service("urn:oasis:names:tc:SAML:2.0:bindings:HTTP-Artifact")
        .is_none());
}

#[test]
fn test_single_sign_on_service_first_wins() {
    let descriptor = idp(
        vec![],
        vec![
            Endpoint::new(REDIRECT, "https://idp.example.com/first"),
            Endpoint::new(REDIRECT, "https://idp.example.com/second"),
        ],
    );
    assert_eq!(
        descriptor.single_sign_on_service(REDIRECT).unwrap().location,
        "https://idp.example.com/first"
    );
}

#[test]
fn idp_test_signing_certificates_der_excludes_encryption_key() {
    let descriptor = idp(
        vec![
            KeyDescriptor::signing(&key_info_with("c2lnbg==")),
            KeyDescriptor::encryption(&key_info_with("ZW5jcg==")),
        ],
        vec![],
    );
    assert_eq!(descriptor.signing_certificates_der(), vec![b"sign".to_vec()]);
}

#[test]
fn test_signing_certificates_der_includes_use_omitted() {
    let descriptor = idp(vec![KeyDescriptor::both(&key_info_with("Ym90aA=="))], vec![]);
    assert_eq!(descriptor.signing_certificates_der(), vec![b"both".to_vec()]);
}

#[test]
fn test_signing_certificates_der_aggregates_in_document_order() {
    let descriptor = idp(
        vec![
            KeyDescriptor::signing(&key_info_with("YWFh")),
            KeyDescriptor::signing(&key_info_with("YmJi")),
        ],
        vec![],
    );
    assert_eq!(descriptor.signing_certificates_der(), vec![b"aaa".to_vec(), b"bbb".to_vec()]);
}

#[test]
fn test_sp_sso_descriptor_basic() {
    let sp = sp_with_keys(vec![]);
    assert_eq!(sp.authn_requests_signed, Some(true));
    assert_eq!(sp.assertion_consumer_services.len(), 1);
    assert_eq!(sp.assertion_consumer_services[0].is_default, Some(true));
}

#[test]
fn sp_test_signing_certificates_der_excludes_encryption_key() {
    let sp = sp_with_keys(vec![
        KeyDescriptor::signing(&key_info_with("c2lnbg==")),
        KeyDescriptor::encryption(&key_info_with("ZW5jcg==")),
    ]);
    assert_eq!(sp.signing_certificates_der(), vec![b"sign".to_vec()]);
}

#[test]
fn test_encryption_certificates_der_excludes_signing_key() {
    let sp = sp_with_keys(vec![
        KeyDescriptor::signing(&key_info_with("c2lnbg==")),
        KeyDescriptor::encryption(&key_info_with("ZW5jcg==")),
    ]);
    assert_eq!(sp.encryption_certificates_der(), vec![b"encr".to_vec()]);
}

#[test]
fn test_use_omitted_key_serves_both_roles() {
    let sp = sp_with_keys(vec![KeyDescriptor::both(&key_info_with("Ym90aA=="))]);
    assert_eq!(sp.signing_certificates_der(), vec![b"both".to_vec()]);
    assert_eq!(sp.encryption_certificates_der(), vec![b"both".to_vec()]);
}

#[test]
fn role_descriptor_base_ref_to_owned_copies_every_field() {
    let r = RoleDescriptorBaseRef {
        id: Some("_role"),
        valid_until: Some(secs(1_800_000_000)),
        cache_duration: Some("PT6H"),
        protocol_support_enumeration: vec!["urn:oasis:names:tc:SAML:2.0:protocol"],
        error_url: Some("https://idp.example.com/error"),
        key_descriptors: vec![],
        organization: Some(OrganizationRef {
            extensions: None,
            organization_names: vec![LocalizedNameRef { lang: "en", value: "Example" }],
            organization_display_names: vec![LocalizedNameRef { lang: "en", value: "Example Org" }],
            organization_urls: vec![LocalizedUriRef { lang: "en", value: "https://example.com" }],
        }),
        contact_persons: vec![ContactPersonRef {
            contact_type: ContactType::Support,
            extensions: Some("<md:Extensions/>"),
            company: None,
            given_name: Some("Ada"),
            sur_name: Some("Lovelace"),
            email_addresses: vec!["mailto:help@example.com"],
            telephone_numbers: vec!["+46 8 000 00"],
        }],
        extensions: None,
    };
    let o = r.to_owned();
    assert_eq!(o.id.as_deref(), Some("_role"));
    assert_eq!(o.valid_until, Some(secs(1_800_000_000)));
    assert_eq!(o.cache_duration.as_deref(), Some("PT6H"));
    assert_eq!(o.protocol_support_enumeration, vec!["urn:oasis:names:tc:SAML:2.0:protocol".to_string()]);
    let org = o.organization.as_ref().unwrap();
    assert_eq!(org.organization_display_names[0].value, "Example Org");
    assert_eq!(org.organization_urls[0].value, "https://example.com");
    let cp = &o.contact_persons[0];
    assert_eq!(cp.contact_type.as_str(), "support");
    assert_eq!(cp.sur_name.as_deref(), Some("Lovelace"));
    assert_eq!(cp.telephone_numbers, vec!["+46 8 000 00".to_string()]);
    assert_eq!(cp.extensions.as_ref().unwrap().raw_xml, "<md:Extensions/>");
}

fn secs(s: i64) -> i128 {
    s as i128 * 1_000_000_000
}
