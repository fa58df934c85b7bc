use gamlastan::assertion::{
    Attribute, AttributeStatement, AuthnContext, AuthnStatement, SubjectConfirmation, SubjectConfirmationData,
};
use gamlastan::profiles::error::ProfileError;
use gamlastan::profiles::sso::sp::process_response as process_sp_response;
use gamlastan::profiles::swedenconnect::config::SwedenConnectConfig;
use gamlastan::profiles::swedenconnect::constants;
use gamlastan::profiles::swedenconnect::error::SwedenConnectError;
use gamlastan::profiles::swedenconnect::response::{process_response, SwedenConnectResponseParams};
use gamlastan::protocol::{
    Assertion, Issuer, NameId, NameIdOrEncryptedId, Response, ResponseBase, SamlVersion, Status, StatusCode, Subject,
};
use gamlastan::security::CheckFailure;

const IDP: &str = "https://idp.example.se";
const SP: &str = "https://sp.example.se";
const ACS: &str = "https://sp.example.se/acs";
const REQ_ID: &str = "_req_1";
const NOW: i128 = 1_700_000_000 * 1_000_000_000;

fn cfg() -> SwedenConnectConfig {
    SwedenConnectConfig::service_provider(SP, vec![constants::LOA3.into()])
}

fn make_assertion(loa: &str, with_attr_stmt: bool) -> Assertion {
    Assertion {
        id: "_assertion_1".to_string(),
        version: SamlVersion::V2_0,
        issue_instant: NOW,
        issuer: Issuer::entity(IDP),
        has_signature: false,
        subject: Some(Subject {
            name_id: Some(NameIdOrEncryptedId::NameId(NameId {
                value: "abc-persistent-id".to_string(),
                format: Some(constants::NAMEID_PERSISTENT.to_string()),
                name_qualifier: None,
                sp_name_qualifier: None,
                sp_provided_id: None,
            })),
            subject_confirmations: vec![SubjectConfirmation {
                method: constants::CM_BEARER.to_string(),
                name_id: None,
                subject_confirmation_data: Some(SubjectConfirmationData {
                    not_before: None,
                    not_on_or_after: Some(NOW + secs(300)),
                    recipient: Some(ACS.to_string()),
                    in_response_to: Some(REQ_ID.to_string()),
                    address: None,
                    key_info_x509_certs: vec![],
                }),
            }],
        }),
        conditions: None,
        authn_statements: vec![AuthnStatement {
            authn_instant: NOW,
            session_index: Some("_sess_1".to_string()),
            session_not_on_or_after: Some(NOW + secs(3600)),
            subject_locality: None,
            authn_context: AuthnContext {
                authn_context_class_ref: Some(loa.to_string()),
                authn_context_decl_ref: None,
                authenticating_authorities: vec![],
            },
        }],
        attribute_statements: if with_attr_stmt {
            vec![AttributeStatement {
                attributes: vec![Attribute {
                    name: constants::ATTR_PERSONAL_IDENTITY_NUMBER.to_string(),
                    name_format: Some(constants::ATTRNAME_FORMAT_URI.to_string()),
                    friendly_name: Some("personalIdentityNumber".to_string()),
                    values: vec![],
                }],
            }]
        } else {
            vec![]
        },
    }
}

fn make_response(loa: &str, with_attr_stmt: bool) -> Response {
    Response {
        base: ResponseBase {
            id: "_response_1".to_string(),
            version: SamlVersion::V2_0,
            issue_instant: NOW,
            destination: Some(ACS.to_string()),
            consent: None,
            issuer: Some(Issuer::entity(IDP)),
            has_signature: true,
            in_response_to: Some(REQ_ID.to_string()),
            status: Status::success(),
        },
        assertions: vec![make_assertion(loa, with_attr_stmt)],
        encrypted_assertions: vec![],
    }
}

fn params<'a>(failures: &'a [CheckFailure]) -> SwedenConnectResponseParams<'a> {
    SwedenConnectResponseParams {
        received_url: ACS,
        acs_url: ACS,
        expected_idp_entity_id: IDP,
        expected_request_id: Some(REQ_ID),
        response_signature_verified: true,
        assertion_was_encrypted: true,
        validation_failures: failures,
        relay_state: None,
        client_address: None,
        now: NOW,
    }
}

#[test]
fn test_happy_path() {
    let resp = make_response(constants::LOA3, true);
    let result = process_response(&cfg(), &resp, &params(&[])).unwrap();
    assert_eq!(result.level_of_assurance, constants::LOA3);
    assert_eq!(result.authn.name_id, "abc-persistent-id");
    assert_eq!(result.authn.session_index.as_deref(), Some("_sess_1"));
    assert_eq!(result.authn.idp_entity_id, IDP);
    assert_eq!(result.authn.response_id, "_response_1");
    assert_eq!(result.authn.attributes.len(), 1);
    assert!(!result.sign_message_displayed);
}

#[test]
fn test_rejects_unsolicited() {
    let resp = make_response(constants::LOA3, true);
    let mut p = params(&[]);
    p.expected_request_id = None;
    assert!(matches!(process_response(&cfg(), &resp, &p), Err(SwedenConnectError::UnsolicitedNotAllowed)));
}

#[test]
fn test_rejects_response_issuer_mismatch() {
    let mut resp = make_response(constants::LOA3, true);
    resp.base.issuer = Some(Issuer::entity("https://evil.example.se"));
    assert!(matches!(
        process_response(&cfg(), &resp, &params(&[])),
        Err(SwedenConnectError::ResponseIssuerMismatch { .. })
    ));
}

#[test]
fn test_rejects_missing_response_issuer() {
    let mut resp = make_response(constants::LOA3, true);
    resp.base.issuer = None;
    assert!(matches!(process_response(&cfg(), &resp, &params(&[])), Err(SwedenConnectError::MissingResponseIssuer)));
}

#[test]
fn test_rejects_dangling_in_response_to() {
    let resp = make_response(constants::LOA3, true);
    let mut c = cfg();
    c.accept_unsolicited = true;
    let mut p = params(&[]);
    p.expected_request_id = None;
    assert!(matches!(process_response(&c, &resp, &p), Err(SwedenConnectError::UnexpectedInResponseTo(_))));
}

#[test]
fn test_rejects_dangling_confirmation_in_response_to() {
    let mut resp = make_response(constants::LOA3, true);
    resp.base.in_response_to = None;
    let mut c = cfg();
    c.accept_unsolicited = true;
    let mut p = params(&[]);
    p.expected_request_id = None;
    match process_response(&c, &resp, &p) {
        Err(SwedenConnectError::UnexpectedInResponseTo(irt)) => assert_eq!(irt, REQ_ID),
        _ => panic!("expected UnexpectedInResponseTo"),
    }
}

#[test]
fn test_requires_signed_response() {
    let resp = make_response(constants::LOA3, true);
    let mut p = params(&[]);
    p.response_signature_verified = false;
    assert!(matches!(process_response(&cfg(), &resp, &p), Err(SwedenConnectError::ResponseNotSigned)));
}

#[test]
fn test_requires_encryption() {
    let resp = make_response(constants::LOA3, true);
    let mut p = params(&[]);
    p.assertion_was_encrypted = false;
    assert!(matches!(process_response(&cfg(), &resp, &p), Err(SwedenConnectError::AssertionNotEncrypted)));
}

#[test]
fn test_loa_mismatch() {
    let resp = make_response(constants::LOA2, true);
    assert!(matches!(
        process_response(&cfg(), &resp, &params(&[])),
        Err(SwedenConnectError::LevelOfAssuranceMismatch { .. })
    ));
}

#[test]
fn test_requires_attribute_statement() {
    let resp = make_response(constants::LOA3, false);
    assert!(matches!(
        process_response(&cfg(), &resp, &params(&[])),
        Err(SwedenConnectError::AttributeStatementCount(0))
    ));
}

#[test]
fn test_rejects_extra_assertion() {
    let mut resp = make_response(constants::LOA3, true);
    let extra = resp.assertions[0].clone();
    resp.assertions.push(extra);
    assert!(matches!(process_response(&cfg(), &resp, &params(&[])), Err(SwedenConnectError::AssertionCount(2))));
}

#[test]
fn test_reports_validation_failures() {
    let resp = make_response(constants::LOA3, true);
    let failures = vec![
        CheckFailure { check_name: "audience".to_string(), detail: Some("SP not in audience".to_string()) },
        CheckFailure { check_name: "replay".to_string(), detail: None },
    ];
    match process_response(&cfg(), &resp, &params(&failures)) {
        Err(SwedenConnectError::Profile(ProfileError::AssertionValidation(m))) => {
            assert_eq!(m, "audience: SP not in audience; replay: failed")
        },
        _ => panic!("expected AssertionValidation"),
    }
}

#[test]
fn test_rejects_unexpected_confirmation_method() {
    let mut resp = make_response(constants::LOA3, true);
    resp.assertions[0].subject.as_mut().unwrap().subject_confirmations[0].method =
        "urn:oasis:names:tc:SAML:2.0:cm:sender-vouches".to_string();
    match process_response(&cfg(), &resp, &params(&[])) {
        Err(SwedenConnectError::UnexpectedConfirmationMethod(m)) => {
            assert_eq!(m, "urn:oasis:names:tc:SAML:2.0:cm:sender-vouches")
        },
        _ => panic!("expected UnexpectedConfirmationMethod"),
    }
}

#[test]
fn test_sign_message_digest_detected() {
    let mut resp = make_response(constants::LOA3, true);
    resp.assertions[0].attribute_statements[0].attributes.push(Attribute {
        name: constants::ATTR_SIGN_MESSAGE_DIGEST.to_string(),
        name_format: Some(constants::ATTRNAME_FORMAT_URI.to_string()),
        friendly_name: None,
        values: vec![],
    });
    let result = process_response(&cfg(), &resp, &params(&[])).unwrap();
    assert!(result.sign_message_displayed);
}

fn sp_response(status: Status, assertions: Vec<Assertion>) -> Response {
    Response {
        base: ResponseBase {
            id: "_resp1".to_string(),
            version: SamlVersion::V2_0,
            issue_instant: NOW,
            destination: None,
            consent: None,
            issuer: None,
            has_signature: false,
            in_response_to: None,
            status,
        },
        assertions,
        encrypted_assertions: vec![],
    }
}

#[test]
fn test_process_response_failure_status() {
    let response = sp_response(
        Status {
            status_code: StatusCode { value: "urn:oasis:names:tc:SAML:2.0:status:Responder".to_string(), sub_status: None },
            status_message: Some("Authentication failed".to_string()),
            status_detail: None,
        },
        vec![],
    );
    let result = process_sp_response(&response, &[]);
    assert!(result.is_err());
    match result.unwrap_err() {
        ProfileError::ResponseFailure(msg) => {
            assert!(msg.contains("Authentication failed"));
        },
        e => panic!("unexpected error: {}", e.message()),
    }
}

#[test]
fn test_process_response_no_assertions() {
    let response = sp_response(Status::success(), vec![]);
    let result = process_sp_response(&response, &[]);
    assert!(matches!(result, Err(ProfileError::NoAssertions)));
}

#[test]
fn test_process_response_rejects_unverified_assertion_signature_markup() {
    let response = sp_response(Status::success(), vec![make_assertion(constants::LOA3, true)]);
    let failures =
        vec![CheckFailure { check_name: "assertion_signature".to_string(), detail: Some("not verified".to_string()) }];
    let result = process_sp_response(&response, &failures);
    assert!(matches!(result, Err(ProfileError::AssertionValidation(_))));

    let result = process_sp_response(&response, &[]);
    assert!(result.is_ok());
    let authn = result.unwrap();
    assert_eq!(authn.name_id, "abc-persistent-id");
    assert_eq!(authn.assertion_id, "_assertion_1");
    assert_eq!(authn.authn_context_class_ref.as_deref(), Some(constants::LOA3));
}

#[test]
fn test_process_response_encrypted_name_id() {
    let mut assertion = make_assertion(constants::LOA3, true);
    assertion.subject.as_mut().unwrap().name_id = Some(NameIdOrEncryptedId::EncryptedId("<saml:EncryptedID/>".to_string()));
    let response = sp_response(Status::success(), vec![assertion]);
    match process_sp_response(&response, &[]) {
        Err(ProfileError::Other(m)) => assert_eq!(m, "encrypted NameID not yet supported"),
        _ => panic!("expected an error"),
    }
}

fn secs(s: i64) -> i128 {
    s as i128 * 1_000_000_000
}
