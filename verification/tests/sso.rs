use gamlastan::assertion::{Attribute, AttributeStatement, AuthnContext, AuthnStatement};
use gamlastan::metadata::types::endpoint::{Endpoint, IndexedEndpoint};
use gamlastan::metadata::types::idp::IdpSsoDescriptor;
use gamlastan::metadata::types::role_descriptor::{RoleDescriptorBase, SsoDescriptorBase};
use gamlastan::profiles::error::ProfileError;
use gamlastan::profiles::sso::sp::{
    create_authn_request, find_acs_endpoint_by_binding, find_default_acs_endpoint, find_sso_endpoint,
};
use gamlastan::profiles::sso::web_browser::{
    extract_attributes, extract_authn_context, extract_session_index, extract_session_not_on_or_after,
    AuthnRequestOptions, BINDING_HTTP_POST,
};
use gamlastan::protocol::AuthnContextComparison;

fn idp() -> IdpSsoDescriptor {
    IdpSsoDescriptor {
        sso_base: SsoDescriptorBase {
            base: RoleDescriptorBase::new(vec!["urn:oasis:names:tc:SAML:2.0:protocol".to_string()]),
            artifact_resolution_services: vec![],
            single_logout_services: vec![],
            manage_name_id_services: vec![],
            name_id_formats: vec![],
        },
        want_authn_requests_signed: None,
        single_sign_on_services: vec![
            Endpoint::new("urn:oasis:names:tc:SAML:2.0:bindings:HTTP-POST", "https://idp.example.com/sso/post"),
            Endpoint::new("urn:oasis:names:tc:SAML:2.0:bindings:HTTP-Redirect", "https://idp.example.com/sso/redirect"),
        ],
        name_id_mapping_services: vec![],
        assertion_id_request_services: vec![],
        attribute_profiles: vec![],
        attributes: vec![],
    }
}

#[test]
fn test_find_sso_endpoint_preferred() {
    let idp = idp();
    let ep = find_sso_endpoint(&idp, "urn:oasis:names:tc:SAML:2.0:bindings:HTTP-Redirect").unwrap();
    assert!(ep.location.contains("redirect"));
    let ep = find_sso_endpoint(&idp, "urn:oasis:names:tc:SAML:2.0:bindings:SOAP").unwrap();
    assert!(ep.location.contains("post"));
}

#[test]
fn test_find_default_acs_endpoint() {
    let endpoints = vec![
        IndexedEndpoint::new(
            Endpoint::new("urn:oasis:names:tc:SAML:2.0:bindings:HTTP-POST", "https://sp.example.com/acs/post"),
            1,
        ),
        IndexedEndpoint::new_default(
            Endpoint::new("urn:oasis:names:tc:SAML:2.0:bindings:HTTP-POST", "https://sp.example.com/acs/default"),
            0,
        ),
    ];
    let ep = find_default_acs_endpoint(&endpoints).unwrap();
    assert!(ep.endpoint.location.contains("default"));
}

#[test]
fn test_find_default_acs_endpoint_lowest_index_first() {
    let endpoints = vec![
        IndexedEndpoint::new(Endpoint::new(BINDING_HTTP_POST, "https://sp.example.com/a"), 3),
        IndexedEndpoint::new(Endpoint::new(BINDING_HTTP_POST, "https://sp.example.com/b"), 1),
        IndexedEndpoint::new(Endpoint::new(BINDING_HTTP_POST, "https://sp.example.com/c"), 1),
    ];
    assert_eq!(find_default_acs_endpoint(&endpoints).unwrap().endpoint.location, "https://sp.example.com/b");
    assert!(find_default_acs_endpoint(&[]).is_none());
    assert_eq!(
        find_acs_endpoint_by_binding(&endpoints, BINDING_HTTP_POST).unwrap().endpoint.location,
        "https://sp.example.com/a"
    );
    assert!(find_acs_endpoint_by_binding(&endpoints, "urn:x").is_none());
}

fn base_options() -> AuthnRequestOptions {
    AuthnRequestOptions {
        sp_entity_id: "https://sp.example.com".to_string(),
        acs_url: Some("https://sp.example.com/acs".to_string()),
        protocol_binding: Some(BINDING_HTTP_POST.to_string()),
        destination: Some("https://idp.example.com/sso".to_string()),
        ..Default::default()
    }
}

#[test]
fn test_create_authn_request_basic() {
    let req = create_authn_request(&base_options()).unwrap();
    assert!(req.base.id.starts_with('_'));
    assert_eq!(req.base.issuer.as_ref().unwrap().value, "https://sp.example.com");
    assert_eq!(req.assertion_consumer_service_url.as_deref(), Some("https://sp.example.com/acs"));
    assert!(req.name_id_policy.is_none());
    assert!(req.requested_authn_context.is_none());
    assert!(req.scoping.is_none());
}

#[test]
fn test_create_authn_request_with_policy() {
    let opts = AuthnRequestOptions {
        name_id_format: Some("urn:oasis:names:tc:SAML:2.0:nameid-format:persistent".to_string()),
        allow_create: true,
        ..base_options()
    };
    let req = create_authn_request(&opts).unwrap();
    let policy = req.name_id_policy.unwrap();
    assert!(policy.allow_create);
    assert_eq!(policy.format.as_deref(), Some("urn:oasis:names:tc:SAML:2.0:nameid-format:persistent"));
}

#[test]
fn test_create_authn_request_with_authn_context() {
    let opts = AuthnRequestOptions {
        authn_context_class_refs: vec!["urn:oasis:names:tc:SAML:2.0:ac:classes:Password".to_string()],
        authn_context_comparison: Some(AuthnContextComparison::Minimum),
        ..base_options()
    };
    let req = create_authn_request(&opts).unwrap();
    let rac = req.requested_authn_context.unwrap();
    assert_eq!(rac.comparison, AuthnContextComparison::Minimum);
    assert_eq!(rac.authn_context_class_refs.len(), 1);
}

#[test]
fn test_create_authn_request_missing_issuer() {
    let opts = AuthnRequestOptions { sp_entity_id: String::new(), ..base_options() };
    assert!(matches!(create_authn_request(&opts), Err(ProfileError::MissingIssuer)));
}

#[test]
fn test_create_authn_request_with_scoping() {
    let opts = AuthnRequestOptions {
        proxy_count: Some(2),
        requester_ids: vec!["https://requester.example.com".to_string()],
        ..base_options()
    };
    let req = create_authn_request(&opts).unwrap();
    let scoping = req.scoping.unwrap();
    assert_eq!(scoping.proxy_count, Some(2));
    assert_eq!(scoping.requester_ids, vec!["https://requester.example.com".to_string()]);
    assert!(scoping.idp_list.is_empty());
}

#[test]
fn test_default_authn_request_options() {
    let opts = AuthnRequestOptions::default();
    assert!(opts.sp_entity_id.is_empty());
    assert!(!opts.allow_create);
    assert!(opts.force_authn.is_none());
}

fn attribute(name: &str) -> Attribute {
    Attribute { name: name.to_string(), name_format: None, friendly_name: None, values: vec![] }
}

#[test]
fn test_extract_attributes() {
    let stmts = vec![
        AttributeStatement { attributes: vec![attribute("email"), attribute("name")] },
        AttributeStatement { attributes: vec![attribute("role")] },
    ];
    let attrs = extract_attributes(&stmts);
    assert_eq!(attrs.len(), 3);
    assert_eq!(attrs[0].name, "email");
    assert_eq!(attrs[2].name, "role");
}

fn statement(session_index: Option<&str>) -> AuthnStatement {
    AuthnStatement {
        authn_instant: 0,
        session_index: session_index.map(|s| s.to_string()),
        session_not_on_or_after: None,
        subject_locality: None,
        authn_context: AuthnContext {
            authn_context_class_ref: Some("urn:ctx".to_string()),
            authn_context_decl_ref: None,
            authenticating_authorities: vec![],
        },
    }
}

#[test]
fn test_extract_session_index() {
    let stmts = vec![statement(Some("_session_abc"))];
    assert_eq!(extract_session_index(&stmts), Some("_session_abc"));
    assert_eq!(extract_authn_context(&stmts).unwrap().authn_context_class_ref.as_deref(), Some("urn:ctx"));
}

#[test]
fn test_extract_session_index_empty() {
    let stmts: Vec<AuthnStatement> = vec![];
    assert_eq!(extract_session_index(&stmts), None);
    assert!(extract_authn_context(&stmts).is_none());
}

#[test]
fn session_not_on_or_after_comes_from_the_first_statement() {
    assert_eq!(extract_session_not_on_or_after(&[]), None);
    let mut first = statement(Some("_s1"));
    first.session_not_on_or_after = Some(secs(1_700_003_600));
    let mut second = statement(Some("_s2"));
    second.session_not_on_or_after = Some(secs(42));
    assert_eq!(extract_session_not_on_or_after(&[first, second]), Some(secs(1_700_003_600)));
    assert_eq!(extract_session_not_on_or_after(&[statement(None)]), None);
}

fn secs(s: i64) -> i128 {
    s as i128 * 1_000_000_000
}
