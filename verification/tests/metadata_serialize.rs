use gamlastan::assertion::Attribute;
use gamlastan::metadata::serialize::write_entity_descriptor_nested;
use gamlastan::metadata::types::affiliation::AffiliationDescriptor;
use gamlastan::metadata::types::contact::{ContactPerson, ContactType};
use gamlastan::metadata::types::endpoint::{Endpoint, IndexedEndpoint};
use gamlastan::metadata::types::entity_descriptor::{EntitiesDescriptor, EntityDescriptor, EntityRoles, MetadataChild};
use gamlastan::metadata::types::extensions::Extensions;
use gamlastan::metadata::types::idp::IdpSsoDescriptor;
use gamlastan::metadata::types::key_descriptor::{EncryptionMethod, KeyDescriptor, KeyUse};
use gamlastan::metadata::types::role_descriptor::{RoleDescriptorBase, SsoDescriptorBase};
use gamlastan::metadata::types::sp::{AttributeConsumingService, RequestedAttribute, SpSsoDescriptor};
use gamlastan::metadata::types::localized::LocalizedName;
use gamlastan::xml_writer::XmlBuffer;

const PROTO: &str = "urn:oasis:names:tc:SAML:2.0:protocol";
const POST: &str = "urn:oasis:names:tc:SAML:2.0:bindings:HTTP-POST";
const NS_ALL: &str = r#"xmlns:md="urn:oasis:names:tc:SAML:2.0:metadata" xmlns:saml="urn:oasis:names:tc:SAML:2.0:assertion" xmlns:ds="http://www.w3.org/2000/09/xmldsig#" xmlns:xenc="http://www.w3.org/2001/04/xmlenc#""#;

fn sso(base: RoleDescriptorBase) -> SsoDescriptorBase {
    SsoDescriptorBase {
        base,
        artifact_resolution_services: vec![],
        single_logout_services: vec![],
        manage_name_id_services: vec![],
        name_id_formats: vec![],
    }
}

fn sp() -> SpSsoDescriptor {
    let mut s = sso(RoleDescriptorBase::new(vec![PROTO.to_string()]));
    s.name_id_formats.push("urn:oasis:names:tc:SAML:2.0:nameid-format:transient".to_string());
    SpSsoDescriptor {
        sso_base: s,
        authn_requests_signed: Some(true),
        want_assertions_signed: None,
        assertion_consumer_services: vec![IndexedEndpoint {
            endpoint: Endpoint::new(POST, "https://sp.example.com/acs?a=1&b=2"),
            index: 0,
            is_default: Some(true),
        }],
        attribute_consuming_services: vec![AttributeConsumingService {
            index: 1,
            is_default: None,
            service_names: vec![LocalizedName { lang: "en".to_string(), value: "SP".to_string() }],
            service_descriptions: vec![],
            requested_attributes: vec![RequestedAttribute {
                attribute: Attribute {
                    name: "mail".to_string(),
                    name_format: None,
                    friendly_name: None,
                    values: vec![],
                },
                is_required: Some(false),
            }],
        }],
    }
}

fn entity(id: &str, roles: EntityRoles) -> EntityDescriptor {
    EntityDescriptor {
        entity_id: id.to_string(),
        id: None,
        valid_until: None,
        cache_duration: None,
        has_signature: false,
        extensions: None,
        roles,
        organization: None,
        contact_persons: vec![],
        additional_metadata_locations: vec![],
    }
}

fn sp_roles() -> EntityRoles {
    EntityRoles::Roles { idp_sso: vec![], sp_sso: vec![sp()], authn_authority: vec![], attr_authority: vec![], pdp: vec![] }
}

fn write(f: impl FnOnce(&mut XmlBuffer)) -> String {
    let mut w = XmlBuffer::new();
    f(&mut w);
    w.into_string()
}

#[test]
fn sp_descriptor_writes_attributes_and_children_in_order() {
    let xml = write(|w| sp().to_xml(w));
    let expected = format!(
        r#"<md:SPSSODescriptor {NS_ALL} protocolSupportEnumeration="{PROTO}" AuthnRequestsSigned="true"><md:NameIDFormat>urn:oasis:names:tc:SAML:2.0:nameid-format:transient</md:NameIDFormat><md:AssertionConsumerService Binding="{POST}" Location="https://sp.example.com/acs?a=1&amp;b=2" index="0" isDefault="true"/><md:AttributeConsumingService index="1"><md:ServiceName xml:lang="en">SP</md:ServiceName><md:RequestedAttribute Name="mail" isRequired="false"/></md:AttributeConsumingService></md:SPSSODescriptor>"#
    );
    assert_eq!(xml, expected);
}

#[test]
fn entity_descriptor_declares_namespaces_and_writes_valid_until() {
    let mut ed = entity("https://sp.example.com", sp_roles());
    ed.valid_until = Some(secs(1_704_067_200) + 250_000_000);
    ed.cache_duration = Some("PT1H".to_string());
    ed.extensions = Some(Extensions::new("<mdrpi:RegistrationInfo/>"));
    ed.contact_persons.push(ContactPerson {
        contact_type: ContactType::Technical,
        extensions: None,
        company: None,
        given_name: Some("Ada".to_string()),
        sur_name: None,
        email_addresses: vec!["mailto:ops@example.com".to_string()],
        telephone_numbers: vec![],
    });
    let xml = write(|w| ed.to_xml(w));
    assert!(xml.starts_with(&format!(
        r#"<md:EntityDescriptor {NS_ALL} entityID="https://sp.example.com" validUntil="2024-01-01T00:00:00Z" cacheDuration="PT1H"><md:Extensions><mdrpi:RegistrationInfo/></md:Extensions><md:SPSSODescriptor {NS_ALL} "#
    )), "{xml}");
    assert!(xml.ends_with(r#"</md:SPSSODescriptor><md:ContactPerson contactType="technical"><md:GivenName>Ada</md:GivenName><md:EmailAddress>mailto:ops@example.com</md:EmailAddress></md:ContactPerson></md:EntityDescriptor>"#), "{xml}");
}

#[test]
fn nested_entities_do_not_redeclare_namespaces() {
    let group = EntitiesDescriptor {
        id: None,
        valid_until: None,
        cache_duration: None,
        name: Some("Federation".to_string()),
        has_signature: false,
        extensions: None,
        children: vec![
            MetadataChild::Entity(Box::new(entity("https://a.example.com", sp_roles()))),
            MetadataChild::Entities(EntitiesDescriptor {
                id: Some("_inner".to_string()),
                valid_until: None,
                cache_duration: None,
                name: None,
                has_signature: false,
                extensions: Some(Extensions::new("<md:Extensions><x/></md:Extensions>")),
                children: vec![MetadataChild::Entity(Box::new(entity("https://b.example.com", sp_roles())))],
            }),
        ],
    };
    let xml = write(|w| group.to_xml(w));
    assert!(xml.starts_with(&format!(r#"<md:EntitiesDescriptor {NS_ALL} Name="Federation"><md:EntityDescriptor {NS_ALL} entityID="https://a.example.com">"#)), "{xml}");
    assert!(xml.contains(&format!(
        r#"<md:EntitiesDescriptor ID="_inner"><md:Extensions><x/></md:Extensions><md:EntityDescriptor entityID="https://b.example.com"><md:SPSSODescriptor protocolSupportEnumeration="{PROTO}" AuthnRequestsSigned="true">"#
    )), "{xml}");
    assert!(xml.ends_with("</md:EntityDescriptor></md:EntitiesDescriptor></md:EntitiesDescriptor>"), "{xml}");
    assert_eq!(xml.matches("xmlns:md=").count(), 3);

    let nested = write(|w| write_entity_descriptor_nested(w, &entity("https://c.example.com", sp_roles())));
    assert!(!nested.contains("xmlns"), "{nested}");
}

#[test]
fn idp_descriptor_writes_keys_attributes_and_encryption_methods() {
    let mut base = RoleDescriptorBase::new(vec![PROTO.to_string(), "urn:x".to_string()]);
    base.id = Some("_idp".to_string());
    base.key_descriptors.push(KeyDescriptor {
        use_: Some(KeyUse::Encryption),
        key_info_xml: "<ds:KeyInfo/>".to_string(),
        encryption_methods: vec![
            EncryptionMethod { algorithm: "urn:aes".to_string(), key_size: Some(128), oaep_params: None },
            EncryptionMethod { algorithm: "urn:rsa".to_string(), key_size: None, oaep_params: None },
        ],
    });
    let idp = IdpSsoDescriptor {
        sso_base: sso(base),
        want_authn_requests_signed: Some(false),
        single_sign_on_services: vec![Endpoint::new(POST, "https://idp.example.com/sso")],
        name_id_mapping_services: vec![],
        assertion_id_request_services: vec![],
        attribute_profiles: vec![],
        attributes: vec![Attribute {
            name: "urn:oid:2.5.4.3".to_string(),
            name_format: None,
            friendly_name: Some("cn".to_string()),
            values: vec!["A <b>".to_string()],
        }],
    };
    let xml = write(|w| idp.to_xml(w));
    let expected = format!(
        r#"<md:IDPSSODescriptor {NS_ALL} protocolSupportEnumeration="{PROTO} urn:x" ID="_idp" WantAuthnRequestsSigned="false"><md:KeyDescriptor use="encryption"><ds:KeyInfo/><md:EncryptionMethod Algorithm="urn:aes"><xenc:KeySize>128</xenc:KeySize></md:EncryptionMethod><md:EncryptionMethod Algorithm="urn:rsa"/></md:KeyDescriptor><md:SingleSignOnService Binding="{POST}" Location="https://idp.example.com/sso"/><saml:Attribute Name="urn:oid:2.5.4.3" FriendlyName="cn"><saml:AttributeValue>A &lt;b&gt;</saml:AttributeValue></saml:Attribute></md:IDPSSODescriptor>"#
    );
    assert_eq!(xml, expected);
}

#[test]
fn affiliation_descriptor_writes_owner_members_and_nested_form() {
    let aff = AffiliationDescriptor {
        affiliation_owner_id: "https://owner.example.com".to_string(),
        id: None,
        valid_until: None,
        cache_duration: None,
        has_signature: false,
        extensions: None,
        affiliate_members: vec!["https://sp1.example.com".to_string()],
        key_descriptors: vec![],
    };
    let xml = write(|w| aff.to_xml(w));
    assert_eq!(
        xml,
        r#"<md:AffiliationDescriptor xmlns:md="urn:oasis:names:tc:SAML:2.0:metadata" xmlns:ds="http://www.w3.org/2000/09/xmldsig#" xmlns:xenc="http://www.w3.org/2001/04/xmlenc#" affiliationOwnerID="https://owner.example.com"><md:AffiliateMember>https://sp1.example.com</md:AffiliateMember></md:AffiliationDescriptor>"#
    );
    let nested = write(|w| write_entity_descriptor_nested(w, &entity("https://aff.example.com", EntityRoles::Affiliation(aff))));
    assert_eq!(
        nested,
        r#"<md:EntityDescriptor entityID="https://aff.example.com"><md:AffiliationDescriptor affiliationOwnerID="https://owner.example.com"><md:AffiliateMember>https://sp1.example.com</md:AffiliateMember></md:AffiliationDescriptor></md:EntityDescriptor>"#
    );
}

fn secs(s: i64) -> i128 {
    s as i128 * 1_000_000_000
}
