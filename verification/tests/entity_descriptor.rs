use gamlastan::metadata::types::affiliation::{AffiliationDescriptor, AffiliationDescriptorRef};
use gamlastan::metadata::types::contact::{ContactPersonRef, ContactType};
use gamlastan::metadata::types::entity_descriptor::{
    EntitiesDescriptor, EntitiesDescriptorRef, EntityDescriptor, EntityDescriptorRef, EntityRoles, EntityRolesRef,
    MetadataChild, MetadataChildRef,
};
use gamlastan::metadata::types::extensions::Extensions;
use gamlastan::metadata::types::md_extensions::MdExtensions;
use gamlastan::metadata::types::role_descriptor::{RoleDescriptorBase, SsoDescriptorBase};
use gamlastan::metadata::types::sp::SpSsoDescriptor;

fn simple_sp_entity(entity_id: &str) -> EntityDescriptor {
    EntityDescriptor {
        entity_id: entity_id.to_string(),
        id: None,
        valid_until: None,
        cache_duration: None,
        has_signature: false,
        extensions: None,
        roles: EntityRoles::Roles {
            idp_sso: vec![],
            sp_sso: vec![],
            authn_authority: vec![],
            attr_authority: vec![],
            pdp: vec![],
        },
        organization: None,
        contact_persons: vec![],
        additional_metadata_locations: vec![],
    }
}

fn sp_with_extensions(xml: &str) -> SpSsoDescriptor {
    let mut base = RoleDescriptorBase::new(vec!["urn:oasis:names:tc:SAML:2.0:protocol".to_string()]);
    base.extensions = Some(Extensions::new(xml));
    SpSsoDescriptor {
        sso_base: SsoDescriptorBase {
            base,
            artifact_resolution_services: vec![],
            single_logout_services: vec![],
            manage_name_id_services: vec![],
            name_id_formats: vec![],
        },
        authn_requests_signed: None,
        want_assertions_signed: None,
        assertion_consumer_services: vec![],
        attribute_consuming_services: vec![],
    }
}

#[test]
fn test_entity_descriptor_metadata_extension_accessors() {
    // No Extensions: every accessor yields an empty value, never panics.
    let bare = simple_sp_entity("https://sp.example.com");
    assert_eq!(bare.registration_authority(), None);
    assert!(bare.entity_categories().is_empty());
    assert!(bare
        .entity_attribute_values("urn:oasis:names:tc:SAML:profiles:subject-id:req")
        .is_empty());
    assert_eq!(bare.md_extensions(), MdExtensions::default());

    // With RegistrationInfo + EntityAttributes, the accessors round-trip
    // through MdExtensions.
    let mut ed = simple_sp_entity("https://sp.swamid.example");
    ed.extensions = Some(Extensions::new(
        r#"
            <mdrpi:RegistrationInfo xmlns:mdrpi="urn:oasis:names:tc:SAML:metadata:rpi"
                registrationAuthority="http://www.swamid.se/"/>
            <mdattr:EntityAttributes xmlns:mdattr="urn:oasis:names:tc:SAML:metadata:attribute"
                xmlns:saml="urn:oasis:names:tc:SAML:2.0:assertion">
              <saml:Attribute Name="http://macedir.org/entity-category">
                <saml:AttributeValue>http://refeds.org/category/research-and-scholarship</saml:AttributeValue>
              </saml:Attribute>
              <saml:Attribute Name="urn:oasis:names:tc:SAML:profiles:subject-id:req">
                <saml:AttributeValue>any</saml:AttributeValue>
              </saml:Attribute>
            </mdattr:EntityAttributes>
            "#,
    ));
    assert_eq!(ed.registration_authority().as_deref(), Some("http://www.swamid.se/"));
    assert_eq!(
        ed.entity_categories(),
        vec!["http://refeds.org/category/research-and-scholarship".to_string()]
    );
    assert_eq!(
        ed.entity_attribute_values("urn:oasis:names:tc:SAML:profiles:subject-id:req"),
        vec!["any".to_string()]
    );
}

#[test]
fn test_entity_descriptor_ui_info_and_algorithms_from_role() {
    // An SP whose SPSSODescriptor carries mdui:UIInfo and algsupport.
    let sp = sp_with_extensions(
        r#"
            <mdui:UIInfo xmlns:mdui="urn:oasis:names:tc:SAML:metadata:ui">
              <mdui:DisplayName xml:lang="en">Example SP</mdui:DisplayName>
            </mdui:UIInfo>
            <alg:SigningMethod xmlns:alg="urn:oasis:names:tc:SAML:metadata:algsupport"
                Algorithm="http://www.w3.org/2001/04/xmldsig-more#rsa-sha256"/>
            "#,
    );
    let mut ed = simple_sp_entity("https://sp.example.com");
    ed.roles = EntityRoles::Roles {
        idp_sso: vec![],
        sp_sso: vec![sp],
        authn_authority: vec![],
        attr_authority: vec![],
        pdp: vec![],
    };

    let ui = ed.sp_ui_info().expect("SP UIInfo");
    assert_eq!(ui.display_names[0].value, "Example SP");
    assert!(ed.idp_ui_info().is_none());
    assert_eq!(
        ed.supported_algorithms(),
        vec!["http://www.w3.org/2001/04/xmldsig-more#rsa-sha256".to_string()]
    );
}

#[test]
fn test_entity_descriptor_is_idp_sp() {
    let ed = simple_sp_entity("https://example.com");
    assert!(!ed.is_idp());
    assert!(!ed.is_sp());
}

#[test]
fn test_entities_descriptor_flatten() {
    let entities = EntitiesDescriptor {
        id: None,
        valid_until: None,
        cache_duration: None,
        name: Some("Test Federation".to_string()),
        has_signature: false,
        extensions: None,
        children: vec![
            MetadataChild::Entity(Box::new(simple_sp_entity("https://sp1.example.com"))),
            MetadataChild::Entities(EntitiesDescriptor {
                id: None,
                valid_until: None,
                cache_duration: None,
                name: None,
                has_signature: false,
                extensions: None,
                children: vec![
                    MetadataChild::Entity(Box::new(simple_sp_entity("https://sp2.example.com"))),
                    MetadataChild::Entity(Box::new(simple_sp_entity("https://sp3.example.com"))),
                ],
            }),
        ],
    };
    let all = entities.entity_descriptors();
    assert_eq!(all.len(), 3);
    assert_eq!(all[0].entity_id, "https://sp1.example.com");
    assert_eq!(all[1].entity_id, "https://sp2.example.com");
    assert_eq!(all[2].entity_id, "https://sp3.example.com");
}

#[test]
fn test_entity_roles_accessors() {
    let roles = EntityRoles::Affiliation(AffiliationDescriptor {
        affiliation_owner_id: "https://federation.example.com".to_string(),
        id: None,
        valid_until: None,
        cache_duration: None,
        has_signature: false,
        extensions: None,
        affiliate_members: vec!["https://sp.example.com".to_string()],
        key_descriptors: vec![],
    });
    // Affiliation variant returns empty slices for SSO descriptors
    assert!(roles.idp_sso_descriptors().is_empty());
    assert!(roles.sp_sso_descriptors().is_empty());
}

#[test]
fn test_affiliation_descriptor_ref_to_owned() {
    let r = AffiliationDescriptorRef {
        affiliation_owner_id: "https://federation.example.com",
        id: Some("_aff1"),
        valid_until: None,
        cache_duration: None,
        has_signature: false,
        extensions: None,
        affiliate_members: vec!["https://sp1.example.com", "https://sp2.example.com"],
        key_descriptors: vec![],
    };
    let o = r.to_owned();
    assert_eq!(o.affiliation_owner_id, "https://federation.example.com");
    assert_eq!(o.affiliate_members.len(), 2);
}

#[test]
fn supported_algorithms_keep_first_occurrence_across_sources() {
    let sp = sp_with_extensions(
        r#"<alg:DigestMethod xmlns:alg="urn:oasis:names:tc:SAML:metadata:algsupport" Algorithm="urn:d1"/>
           <alg:SigningMethod xmlns:alg="urn:oasis:names:tc:SAML:metadata:algsupport" Algorithm="urn:s1"/>"#,
    );
    let mut ed = simple_sp_entity("https://sp.example.com");
    ed.extensions = Some(Extensions::new(
        r#"<alg:SigningMethod xmlns:alg="urn:oasis:names:tc:SAML:metadata:algsupport" Algorithm="urn:s1"/>
           <alg:SigningMethod xmlns:alg="urn:oasis:names:tc:SAML:metadata:algsupport" Algorithm="urn:s2"/>"#,
    ));
    ed.roles = EntityRoles::Roles {
        idp_sso: vec![],
        sp_sso: vec![sp],
        authn_authority: vec![],
        attr_authority: vec![],
        pdp: vec![],
    };
    assert_eq!(
        ed.supported_algorithms(),
        vec!["urn:s1".to_string(), "urn:s2".to_string(), "urn:d1".to_string()]
    );
}

#[test]
fn ui_info_falls_back_to_entity_level_and_skips_empty_role_ui() {
    let sp = sp_with_extensions(r#"<mdui:UIInfo xmlns:mdui="urn:oasis:names:tc:SAML:metadata:ui"/>"#);
    let mut ed = simple_sp_entity("https://sp.example.com");
    ed.extensions = Some(Extensions::new(
        r#"<mdui:UIInfo xmlns:mdui="urn:oasis:names:tc:SAML:metadata:ui">
             <mdui:DisplayName xml:lang="sv">Entitet</mdui:DisplayName>
           </mdui:UIInfo>"#,
    ));
    ed.roles = EntityRoles::Roles {
        idp_sso: vec![],
        sp_sso: vec![sp],
        authn_authority: vec![],
        attr_authority: vec![],
        pdp: vec![],
    };
    let ui = ed.sp_ui_info().expect("entity-level UIInfo");
    assert_eq!(ui.display_names[0].value, "Entitet");
    assert_eq!(ed.idp_ui_info().unwrap().display_names[0].value, "Entitet");
}

#[test]
fn entities_descriptor_ref_to_owned_keeps_nesting_and_contacts() {
    let entity = EntityDescriptorRef {
        entity_id: "https://idp.example.com",
        id: Some("_e1"),
        valid_until: Some(secs(1_700_000_000)),
        cache_duration: Some("PT1H"),
        has_signature: true,
        extensions: Some("<md:Extensions/>"),
        roles: EntityRolesRef::Roles {
            idp_sso: vec![],
            sp_sso: vec![],
            authn_authority: vec![],
            attr_authority: vec![],
            pdp: vec![],
        },
        organization: None,
        contact_persons: vec![ContactPersonRef {
            contact_type: ContactType::Technical,
            extensions: None,
            company: Some("Example"),
            given_name: None,
            sur_name: None,
            email_addresses: vec!["mailto:ops@example.com"],
            telephone_numbers: vec![],
        }],
        additional_metadata_locations: vec![],
    };
    let group = EntitiesDescriptorRef {
        id: None,
        valid_until: None,
        cache_duration: None,
        name: Some("Federation"),
        has_signature: false,
        extensions: None,
        children: vec![MetadataChildRef::Entities(EntitiesDescriptorRef {
            id: None,
            valid_until: None,
            cache_duration: None,
            name: None,
            has_signature: false,
            extensions: None,
            children: vec![MetadataChildRef::Entity(Box::new(entity))],
        })],
    };
    let owned = group.to_owned();
    assert_eq!(owned.name.as_deref(), Some("Federation"));
    let all = owned.entity_descriptors();
    assert_eq!(all.len(), 1);
    assert_eq!(all[0].entity_id, "https://idp.example.com");
    assert_eq!(all[0].valid_until, Some(secs(1_700_000_000)));
    assert_eq!(all[0].contact_persons[0].contact_type.as_str(), "technical");
    assert_eq!(all[0].contact_persons[0].company.as_deref(), Some("Example"));
    assert_eq!(all[0].extensions.as_ref().unwrap().raw_xml, "<md:Extensions/>");
    assert!(!all[0].is_idp());
}

fn secs(s: i64) -> i128 {
    s as i128 * 1_000_000_000
}
