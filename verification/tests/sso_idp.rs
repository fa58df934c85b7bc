use gamlastan::metadata::types::endpoint::{Endpoint, IndexedEndpoint};
use gamlastan::metadata::types::md_extensions::SAML_ASSERTION_NS;
use gamlastan::metadata::types::role_descriptor::{RoleDescriptorBase, SsoDescriptorBase};
use gamlastan::metadata::types::sp::SpSsoDescriptor;
use gamlastan::profiles::error::ProfileError;
use gamlastan::assertion::Attribute;
use gamlastan::profiles::sso::idp::{
    create_error_response, create_response, create_unsolicited_response, insert_signature_after_issuer,
    process_authn_request, signature_template, splice_at_byte_offset,
};
use gamlastan::profiles::sso::web_browser::{ResponseOptions, ResponseTimes};
use gamlastan::protocol::{NameId, Status};
use gamlastan::protocol::{
    AuthnContextComparison, AuthnRequest, Issuer, NameIdPolicy, RequestBase, RequestedAuthnContext, SamlVersion,
};

const SAML_PROTOCOL_NS: &str = "urn:oasis:names:tc:SAML:2.0:protocol";
const RSA_SHA256_URI: &str = "http://www.w3.org/2001/04/xmldsig-more#rsa-sha256";

#[test]
fn test_signature_template_contents() {
    let tmpl = signature_template("_a1", "CERTB64", RSA_SHA256_URI);
    assert!(tmpl.contains(r##"<ds:Reference URI="#_a1">"##));
    assert!(tmpl.contains(&format!(r#"<ds:SignatureMethod Algorithm="{RSA_SHA256_URI}"/>"#)));
    assert!(tmpl.contains("xmlenc#sha256"));
    assert!(tmpl.contains("enveloped-signature"));
    assert!(tmpl.contains("<ds:DigestValue/>"));
    assert!(tmpl.contains("<ds:SignatureValue/>"));
    assert!(tmpl.contains("<ds:X509Certificate>CERTB64</ds:X509Certificate>"));
}

#[test]
fn test_signature_template_escapes_inputs() {
    let tmpl = signature_template(r#"a"&<b"#, "cert&<value", r#"urn:alg"><evil/>"#);
    assert!(tmpl.contains(r##"<ds:Reference URI="#a&quot;&amp;&lt;b">"##));
    assert!(tmpl.contains(r#"Algorithm="urn:alg&quot;>&lt;evil/>""#));
    assert!(tmpl.contains("<ds:X509Certificate>cert&amp;&lt;value</ds:X509Certificate>"));
    assert!(!tmpl.contains("<evil/>"));
}

#[test]
fn test_insert_signature_after_issuer_assertion() {
    let xml = r#"<samlp:Response xmlns:samlp="urn:oasis:names:tc:SAML:2.0:protocol" xmlns:saml="urn:oasis:names:tc:SAML:2.0:assertion" ID="_r1"><saml:Issuer>idp</saml:Issuer><samlp:Status/><saml:Assertion ID="_a1"><saml:Issuer>idp</saml:Issuer><saml:Subject/></saml:Assertion></samlp:Response>"#;
    let out = insert_signature_after_issuer(xml, SAML_ASSERTION_NS, "Assertion", "_a1", "<SIG/>").unwrap();
    assert!(out.contains(r#"<saml:Assertion ID="_a1"><saml:Issuer>idp</saml:Issuer><SIG/><saml:Subject/>"#));
    assert!(out.contains("<saml:Issuer>idp</saml:Issuer><samlp:Status/>"));
}

#[test]
fn test_insert_signature_targets_assertion_by_id() {
    let xml = r#"<samlp:Response xmlns:samlp="urn:oasis:names:tc:SAML:2.0:protocol" xmlns:saml="urn:oasis:names:tc:SAML:2.0:assertion" ID="_r1"><saml:Issuer>idp</saml:Issuer><samlp:Status/><saml:Assertion ID="_a1"><saml:Issuer>idp</saml:Issuer><saml:Subject/></saml:Assertion><saml:Assertion ID="_a2"><saml:Issuer>idp</saml:Issuer><saml:Subject/></saml:Assertion></samlp:Response>"#;
    let out = insert_signature_after_issuer(xml, SAML_ASSERTION_NS, "Assertion", "_a2", "<SIG/>").unwrap();
    assert!(out.contains(r#"<saml:Assertion ID="_a2"><saml:Issuer>idp</saml:Issuer><SIG/><saml:Subject/>"#));
    assert!(out.contains(r#"<saml:Assertion ID="_a1"><saml:Issuer>idp</saml:Issuer><saml:Subject/>"#));
}

#[test]
fn test_insert_signature_unknown_id_errors() {
    let xml = r#"<saml:Assertion xmlns:saml="urn:oasis:names:tc:SAML:2.0:assertion" ID="_a1"><saml:Issuer>idp</saml:Issuer><saml:Subject/></saml:Assertion>"#;
    let err = insert_signature_after_issuer(xml, SAML_ASSERTION_NS, "Assertion", "_nope", "<SIG/>").unwrap_err();
    assert!(err.message().contains(r#"ID="_nope""#));
}

#[test]
fn test_insert_signature_after_issuer_response() {
    let xml = r#"<samlp:Response xmlns:samlp="urn:oasis:names:tc:SAML:2.0:protocol" xmlns:saml="urn:oasis:names:tc:SAML:2.0:assertion" ID="_r1"><saml:Issuer>idp</saml:Issuer><samlp:Status/></samlp:Response>"#;
    let out = insert_signature_after_issuer(xml, SAML_PROTOCOL_NS, "Response", "_r1", "<SIG/>").unwrap();
    assert!(out.contains("<saml:Issuer>idp</saml:Issuer><SIG/><samlp:Status/>"));
}

#[test]
fn test_insert_signature_missing_element_errors() {
    let xml = r#"<samlp:Response xmlns:samlp="urn:oasis:names:tc:SAML:2.0:protocol" xmlns:saml="urn:oasis:names:tc:SAML:2.0:assertion" ID="_r1"><saml:Issuer>idp</saml:Issuer></samlp:Response>"#;
    let err = insert_signature_after_issuer(xml, SAML_ASSERTION_NS, "Assertion", "_a1", "<SIG/>").unwrap_err();
    assert!(err.message().contains("cannot find <Assertion>"));
}

#[test]
fn test_insert_signature_without_issuer_errors() {
    let xml = r#"<saml:Assertion xmlns:saml="urn:oasis:names:tc:SAML:2.0:assertion" ID="_a1"><saml:Subject/></saml:Assertion>"#;
    let err = insert_signature_after_issuer(xml, SAML_ASSERTION_NS, "Assertion", "_a1", "<SIG/>").unwrap_err();
    assert_eq!(err.message(), "<Assertion> has no <saml:Issuer> to anchor the signature");
}

#[test]
fn test_insert_signature_unparsable_errors() {
    let err = insert_signature_after_issuer("<a><b></a>", SAML_ASSERTION_NS, "Assertion", "_a1", "<SIG/>").unwrap_err();
    assert!(err.message().starts_with("cannot parse XML to place signature: "));
}

#[test]
fn test_insert_signature_after_multibyte_text() {
    let xml = r#"<saml:Assertion xmlns:saml="urn:oasis:names:tc:SAML:2.0:assertion" ID="_a1"><saml:Issuer>idp-ö€</saml:Issuer><saml:Subject/></saml:Assertion>"#;
    let out = insert_signature_after_issuer(xml, SAML_ASSERTION_NS, "Assertion", "_a1", "<SIG/>").unwrap();
    assert!(out.contains("<saml:Issuer>idp-ö€</saml:Issuer><SIG/><saml:Subject/>"));
}

#[test]
fn test_splice_at_byte_offset_boundaries() {
    assert_eq!(splice_at_byte_offset("aöb", 0, "X").unwrap(), "Xaöb");
    assert_eq!(splice_at_byte_offset("aöb", 3, "X").unwrap(), "aöXb");
    assert_eq!(splice_at_byte_offset("aöb", 4, "X").unwrap(), "aöbX");
    assert!(splice_at_byte_offset("aöb", 2, "X").is_none());
    assert!(splice_at_byte_offset("aöb", 5, "X").is_none());
}

const NAMEID_EMAIL: &str = "urn:oasis:names:tc:SAML:1.1:nameid-format:emailAddress";
const AUTHN_CONTEXT_PASSWORD: &str = "urn:oasis:names:tc:SAML:2.0:ac:classes:Password";

fn make_sp_metadata() -> SpSsoDescriptor {
    SpSsoDescriptor {
        sso_base: SsoDescriptorBase {
            base: RoleDescriptorBase::new(vec!["urn:oasis:names:tc:SAML:2.0:protocol".to_string()]),
            artifact_resolution_services: vec![],
            single_logout_services: vec![],
            manage_name_id_services: vec![],
            name_id_formats: vec![],
        },
        authn_requests_signed: None,
        want_assertions_signed: Some(true),
        assertion_consumer_services: vec![
            IndexedEndpoint::new_default(
                Endpoint::new("urn:oasis:names:tc:SAML:2.0:bindings:HTTP-POST", "https://sp.example.com/acs/post"),
                0,
            ),
            IndexedEndpoint::new(
                Endpoint::new("urn:oasis:names:tc:SAML:2.0:bindings:HTTP-Redirect", "https://sp.example.com/acs/redirect"),
                1,
            ),
        ],
        attribute_consuming_services: vec![],
    }
}

fn make_authn_request() -> AuthnRequest {
    AuthnRequest {
        base: RequestBase {
            id: "_req123".to_string(),
            version: SamlVersion::V2_0,
            issue_instant: secs(1_700_000_000),
            destination: Some("https://idp.example.com/sso".to_string()),
            consent: None,
            issuer: Some(Issuer::entity("https://sp.example.com")),
            has_signature: false,
        },
        name_id_policy: Some(NameIdPolicy {
            format: Some(NAMEID_EMAIL.to_string()),
            sp_name_qualifier: None,
            allow_create: true,
        }),
        requested_authn_context: Some(RequestedAuthnContext {
            authn_context_class_refs: vec![AUTHN_CONTEXT_PASSWORD.to_string()],
            authn_context_decl_refs: vec![],
            comparison: AuthnContextComparison::Exact,
        }),
        scoping: None,
        force_authn: Some(true),
        is_passive: None,
        assertion_consumer_service_index: None,
        assertion_consumer_service_url: Some("https://sp.example.com/acs/post".to_string()),
        protocol_binding: Some("urn:oasis:names:tc:SAML:2.0:bindings:HTTP-POST".to_string()),
        attribute_consuming_service_index: None,
        provider_name: Some("Test SP".to_string()),
        extensions: None,
    }
}

#[test]
fn test_process_authn_request() {
    let request = make_authn_request();
    let sp_meta = make_sp_metadata();
    let result = process_authn_request(&request, Some(&sp_meta)).unwrap();

    assert_eq!(result.request_id, "_req123");
    assert_eq!(result.sp_entity_id, "https://sp.example.com");
    assert_eq!(result.acs_url, "https://sp.example.com/acs/post");
    assert!(result.force_authn);
    assert!(!result.is_passive);
    assert_eq!(result.requested_name_id_format, Some(NAMEID_EMAIL.to_string()));
    assert!(result.allow_create);
    assert_eq!(result.requested_authn_context_class_refs.len(), 1);
}

#[test]
fn test_process_authn_request_acs_url_mismatch() {
    let mut request = make_authn_request();
    request.assertion_consumer_service_url = Some("https://evil.example.com/acs".to_string());
    let sp_meta = make_sp_metadata();
    let result = process_authn_request(&request, Some(&sp_meta));
    assert!(matches!(result, Err(ProfileError::AcsUrlMismatch)));
}

#[test]
fn test_process_authn_request_by_index() {
    let mut request = make_authn_request();
    request.assertion_consumer_service_url = None;
    request.protocol_binding = None;
    request.assertion_consumer_service_index = Some(1);
    let sp_meta = make_sp_metadata();
    let result = process_authn_request(&request, Some(&sp_meta)).unwrap();
    assert_eq!(result.acs_url, "https://sp.example.com/acs/redirect");
    assert_eq!(result.acs_binding, "urn:oasis:names:tc:SAML:2.0:bindings:HTTP-Redirect");
}

#[test]
fn test_process_authn_request_unknown_index() {
    let mut request = make_authn_request();
    request.assertion_consumer_service_url = None;
    request.assertion_consumer_service_index = Some(7);
    let sp_meta = make_sp_metadata();
    match process_authn_request(&request, Some(&sp_meta)) {
        Err(ProfileError::NoAcsEndpoint(m)) => assert_eq!(m, "index 7 not found in SP metadata"),
        _ => panic!("expected NoAcsEndpoint"),
    }
}

#[test]
fn test_process_authn_request_default_acs() {
    let mut request = make_authn_request();
    request.assertion_consumer_service_url = None;
    request.protocol_binding = None;
    request.assertion_consumer_service_index = None;
    let sp_meta = make_sp_metadata();
    let result = process_authn_request(&request, Some(&sp_meta)).unwrap();
    assert_eq!(result.acs_url, "https://sp.example.com/acs/post");
}

#[test]
fn test_process_authn_request_without_metadata() {
    let mut request = make_authn_request();
    request.protocol_binding = None;
    let result = process_authn_request(&request, None).unwrap();
    assert_eq!(result.acs_url, "https://sp.example.com/acs/post");
    assert_eq!(result.acs_binding, "urn:oasis:names:tc:SAML:2.0:bindings:HTTP-POST");
    request.assertion_consumer_service_url = None;
    match process_authn_request(&request, None) {
        Err(ProfileError::NoAcsEndpoint(m)) => assert_eq!(m, "no ACS endpoint could be resolved"),
        _ => panic!("expected NoAcsEndpoint"),
    }
}

#[test]
fn test_process_authn_request_missing_issuer() {
    let mut request = make_authn_request();
    request.base.issuer = None;
    let result = process_authn_request(&request, None);
    assert!(matches!(result, Err(ProfileError::MissingIssuer)));
}

const CM_BEARER: &str = "urn:oasis:names:tc:SAML:2.0:cm:bearer";
const STATUS_REQUESTER: &str = "urn:oasis:names:tc:SAML:2.0:status:Requester";
const STATUS_INVALID_NAMEID_POLICY: &str = "urn:oasis:names:tc:SAML:2.0:status:InvalidNameIDPolicy";

fn email_name_id() -> NameId {
    NameId {
        value: "user@example.com".to_string(),
        format: Some(NAMEID_EMAIL.to_string()),
        name_qualifier: None,
        sp_name_qualifier: None,
        sp_provided_id: None,
    }
}

#[test]
fn test_create_response() {
    let now: i128 = secs(1_700_000_000);
    let options = ResponseOptions {
        idp_entity_id: "https://idp.example.com".to_string(),
        in_response_to: Some("_req123".to_string()),
        sp_entity_id: "https://sp.example.com".to_string(),
        acs_url: "https://sp.example.com/acs".to_string(),
        assertion_lifetime_seconds: 300,
        session_index: Some("_sess1".to_string()),
        session_not_on_or_after: Some(now + secs(8 * 3600)),
        authn_context_class_ref: Some(AUTHN_CONTEXT_PASSWORD.to_string()),
        client_address: Some("192.168.1.100".to_string()),
        attributes: vec![Attribute { name: "email".to_string(), name_format: None, friendly_name: None, values: vec![] }],
    };
    let name_id = email_name_id();

    let response = create_response(&options, &name_id, ResponseTimes::at(now));

    assert!(response.base.status.is_success());
    assert_eq!(response.base.in_response_to, Some("_req123".to_string()));
    assert_eq!(response.base.destination, Some("https://sp.example.com/acs".to_string()));
    assert_eq!(response.base.issuer.as_ref().unwrap().value, "https://idp.example.com");

    assert_eq!(response.assertions.len(), 1);
    let assertion = &response.assertions[0];
    assert_eq!(assertion.issuer.value, "https://idp.example.com");

    let subject = assertion.subject.as_ref().unwrap();
    assert_eq!(subject.subject_confirmations.len(), 1);
    let conf = &subject.subject_confirmations[0];
    assert_eq!(conf.method, CM_BEARER);
    let data = conf.subject_confirmation_data.as_ref().unwrap();
    assert_eq!(data.recipient, Some("https://sp.example.com/acs".to_string()));
    assert_eq!(data.in_response_to, Some("_req123".to_string()));

    let conditions = assertion.conditions.as_ref().unwrap();
    assert_eq!(conditions.audience_restrictions.len(), 1);
    assert_eq!(conditions.audience_restrictions[0].audiences[0], "https://sp.example.com");

    assert_eq!(assertion.authn_statements.len(), 1);
    let stmt = &assertion.authn_statements[0];
    assert_eq!(stmt.session_index, Some("_sess1".to_string()));
    assert_eq!(stmt.authn_context.authn_context_class_ref, Some(AUTHN_CONTEXT_PASSWORD.to_string()));

    assert_eq!(assertion.attribute_statements.len(), 1);
    assert_eq!(assertion.attribute_statements[0].attributes.len(), 1);

    assert_eq!(stmt.authn_instant, now);
    assert_eq!(assertion.issue_instant, now);
    assert_eq!(data.not_on_or_after, Some(now + secs(300)));
}

#[test]
fn test_create_response_distinct_authn_instant() {
    let issued: i128 = secs(1_700_000_000);
    let authenticated = issued - secs(2 * 3600);
    let options = ResponseOptions {
        idp_entity_id: "https://idp.example.com".to_string(),
        in_response_to: Some("_req123".to_string()),
        sp_entity_id: "https://sp.example.com".to_string(),
        acs_url: "https://sp.example.com/acs".to_string(),
        assertion_lifetime_seconds: 300,
        session_index: Some("_sess1".to_string()),
        session_not_on_or_after: None,
        authn_context_class_ref: Some(AUTHN_CONTEXT_PASSWORD.to_string()),
        client_address: None,
        attributes: vec![],
    };
    let name_id = email_name_id();

    let response =
        create_response(&options, &name_id, ResponseTimes { issue_instant: issued, authn_instant: authenticated });

    let assertion = &response.assertions[0];
    assert_eq!(response.base.issue_instant, issued);
    assert_eq!(assertion.issue_instant, issued);
    let conditions = assertion.conditions.as_ref().unwrap();
    assert_eq!(conditions.not_before, Some(issued));
    assert_eq!(conditions.not_on_or_after, Some(issued + secs(300)));
    assert_eq!(assertion.authn_statements[0].authn_instant, authenticated);
    assert!(assertion.attribute_statements.is_empty());
}

#[test]
fn test_create_error_response() {
    let now: i128 = secs(1_700_000_000);
    let status = Status::with_sub_status(
        STATUS_REQUESTER,
        STATUS_INVALID_NAMEID_POLICY,
        Some("Unsupported NameIDPolicy".to_string()),
    );
    let resp = create_error_response("https://idp.example.com", Some("_req123"), "https://sp.example.com/acs", status, now);

    assert!(resp.assertions.is_empty());
    assert!(resp.encrypted_assertions.is_empty());
    assert!(!resp.base.status.is_success());
    assert_eq!(resp.base.in_response_to, Some("_req123".to_string()));
    assert_eq!(resp.base.destination, Some("https://sp.example.com/acs".to_string()));
    assert_eq!(resp.base.issuer.as_ref().unwrap().value, "https://idp.example.com");
    assert_eq!(resp.base.status.status_code.sub_status.as_ref().unwrap().value, STATUS_INVALID_NAMEID_POLICY);
}

#[test]
fn test_create_unsolicited_response() {
    let now: i128 = secs(1_700_000_000);
    let name_id = email_name_id();

    let response = create_unsolicited_response(
        "https://idp.example.com",
        "https://sp.example.com",
        "https://sp.example.com/acs",
        &name_id,
        &[],
        Some(AUTHN_CONTEXT_PASSWORD),
        300,
        Some("_sess1"),
        None,
        None,
        ResponseTimes::at(now),
    );

    assert!(response.base.in_response_to.is_none());
    assert!(response.base.status.is_success());

    let assertion = &response.assertions[0];
    let conf = &assertion.subject.as_ref().unwrap().subject_confirmations[0];
    assert!(conf.subject_confirmation_data.as_ref().unwrap().in_response_to.is_none());
}

use gamlastan::profiles::sso::sp::{create_authn_request, process_response as process_sp_response};
use gamlastan::profiles::sso::web_browser::AuthnRequestOptions;

#[test]
fn test_built_response_is_accepted_by_sp() {
    let now: i128 = secs(1_700_000_000);
    let options = ResponseOptions {
        idp_entity_id: "https://idp.example.com".to_string(),
        in_response_to: Some("_req123".to_string()),
        sp_entity_id: "https://sp.example.com".to_string(),
        acs_url: "https://sp.example.com/acs".to_string(),
        assertion_lifetime_seconds: 300,
        session_index: Some("_sess1".to_string()),
        session_not_on_or_after: Some(now + secs(3600)),
        authn_context_class_ref: Some(AUTHN_CONTEXT_PASSWORD.to_string()),
        client_address: None,
        attributes: vec![Attribute {
            name: "mail".to_string(),
            name_format: None,
            friendly_name: None,
            values: vec!["user@example.com".to_string()],
        }],
    };
    let response = create_response(&options, &email_name_id(), ResponseTimes { issue_instant: now, authn_instant: now - secs(60) });
    let result = process_sp_response(&response, &[]).unwrap();
    assert_eq!(result.name_id, "user@example.com");
    assert_eq!(result.session_index.as_deref(), Some("_sess1"));
    assert_eq!(result.session_not_on_or_after, Some(now + secs(3600)));
    assert_eq!(result.authn_instant, now - secs(60));
    assert_eq!(result.idp_entity_id, "https://idp.example.com");
    assert_eq!(result.response_id, response.base.id);
    assert_eq!(result.attributes.len(), 1);
    assert_eq!(result.attributes[0].values, vec!["user@example.com".to_string()]);
}

#[test]
fn test_requested_is_processed_by_idp() {
    let mut options = AuthnRequestOptions::default();
    options.sp_entity_id = "https://sp.example.com".to_string();
    options.acs_url = Some("https://sp.example.com/acs".to_string());
    options.force_authn = Some(true);
    options.name_id_format = Some(NAMEID_EMAIL.to_string());
    options.allow_create = true;
    options.authn_context_class_refs = vec![AUTHN_CONTEXT_PASSWORD.to_string()];
    let request = create_authn_request(&options).unwrap();
    let processed = process_authn_request(&request, None).unwrap();
    assert_eq!(processed.request_id, request.base.id);
    assert_eq!(processed.sp_entity_id, "https://sp.example.com");
    assert_eq!(processed.acs_url, "https://sp.example.com/acs");
    assert_eq!(processed.acs_binding, "urn:oasis:names:tc:SAML:2.0:bindings:HTTP-POST");
    assert!(processed.force_authn);
    assert!(!processed.is_passive);
    assert_eq!(processed.requested_name_id_format.as_deref(), Some(NAMEID_EMAIL));
    assert!(processed.allow_create);
    assert_eq!(processed.requested_authn_context_class_refs, vec![AUTHN_CONTEXT_PASSWORD.to_string()]);
}

fn secs(s: i64) -> i128 {
    s as i128 * 1_000_000_000
}
