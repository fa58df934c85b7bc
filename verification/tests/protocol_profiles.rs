use gamlastan::assertion::Attribute;
use gamlastan::profiles::artifact_resolution::{
    create_artifact_resolve, create_artifact_response, create_artifact_response_error, process_artifact_response,
};
use gamlastan::profiles::assertion_query::{
    create_assertion_id_request, create_attribute_query, create_authn_query, create_authz_decision_query,
    process_query_response,
};
use gamlastan::profiles::error::ProfileError;
use gamlastan::profiles::name_id_mapping::{
    create_name_id_mapping_request, create_name_id_mapping_response, process_name_id_mapping_response,
};
use gamlastan::profiles::name_id_mgmt::{
    create_change_name_id_request, create_manage_name_id_response, create_terminate_name_id_request,
    process_manage_name_id_response,
};
use gamlastan::protocol::{
    Action, NameId, NameIdMappingResponse, NameIdOrEncryptedId, NewIdOrTerminate, Response, ResponseBase, SamlVersion,
    Status, StatusCode,
};
use gamlastan::protocol::{instant_string, rfc3339_string, split_instant};

const NAMEID_EMAIL: &str = "urn:oasis:names:tc:SAML:1.1:nameid-format:emailAddress";
const NAMEID_PERSISTENT: &str = "urn:oasis:names:tc:SAML:2.0:nameid-format:persistent";

fn make_name_id() -> NameId {
    NameId {
        value: "user@example.com".to_string(),
        format: Some(NAMEID_EMAIL.to_string()),
        name_qualifier: None,
        sp_name_qualifier: None,
        sp_provided_id: None,
    }
}

#[test]
fn test_create_artifact_resolve() {
    let resolve =
        create_artifact_resolve("https://sp.example.com", "AAQAADWNEw5VT7pvfQxF2Cg==", Some("https://idp.example.com/artifact"));
    assert!(resolve.id.starts_with('_'));
    assert_eq!(resolve.artifact, "AAQAADWNEw5VT7pvfQxF2Cg==");
    assert_eq!(resolve.issuer.as_ref().unwrap().value, "https://sp.example.com");
}

#[test]
fn test_process_artifact_response_success() {
    let response = create_artifact_response(
        "https://idp.example.com",
        "_req123",
        Some(b"<samlp:Response>...</samlp:Response>".to_vec()),
    );
    let result = process_artifact_response(&response, "_req123").unwrap();
    assert!(result.is_some());
    assert_eq!(result.unwrap(), b"<samlp:Response>...</samlp:Response>".to_vec());
}

#[test]
fn test_process_artifact_response_irt_mismatch() {
    let response = create_artifact_response("https://idp.example.com", "_wrong", None);
    let result = process_artifact_response(&response, "_req123");
    assert!(result.is_err());
    match result {
        Err(ProfileError::ArtifactResolutionFailed(m)) => {
            assert_eq!(m, "InResponseTo mismatch: expected _req123, got _wrong")
        },
        _ => panic!("expected a correlation failure"),
    }
}

#[test]
fn test_process_artifact_response_missing_irt_rejected() {
    let mut response = create_artifact_response(
        "https://idp.example.com",
        "_req123",
        Some(b"<samlp:Response>...</samlp:Response>".to_vec()),
    );
    response.in_response_to = None;
    let result = process_artifact_response(&response, "_req123");
    assert!(matches!(result, Err(ProfileError::ArtifactResolutionFailed(_))));
}

#[test]
fn test_process_artifact_response_error() {
    let response = create_artifact_response_error("https://idp.example.com", "_req123", "Unknown artifact");
    let result = process_artifact_response(&response, "_req123");
    assert!(matches!(result, Err(ProfileError::ArtifactResponseFailure(_))));
    match process_artifact_response(&response, "_req123") {
        Err(ProfileError::ArtifactResponseFailure(m)) => assert_eq!(m, "Unknown artifact"),
        _ => panic!("expected a status failure"),
    }
}

#[test]
fn test_create_authn_query() {
    let query = create_authn_query(
        "https://sp.example.com",
        &make_name_id(),
        Some("_session1"),
        None,
        Some("https://idp.example.com/authn-query"),
    );
    assert!(query.id.starts_with('_'));
    assert_eq!(query.session_index, Some("_session1".to_string()));
}

#[test]
fn test_create_attribute_query() {
    let attrs = vec![Attribute {
        name: "urn:oid:1.3.6.1.4.1.5923.1.1.1.7".to_string(),
        name_format: Some("urn:oasis:names:tc:SAML:2.0:attrname-format:uri".to_string()),
        friendly_name: Some("eduPersonEntitlement".to_string()),
        values: vec![],
    }];
    let query = create_attribute_query("https://sp.example.com", &make_name_id(), attrs, None);
    assert_eq!(query.attributes.len(), 1);
    assert_eq!(query.attributes[0].name, "urn:oid:1.3.6.1.4.1.5923.1.1.1.7");
}

#[test]
fn test_create_authz_decision_query() {
    let actions = vec![Action {
        namespace: "urn:oasis:names:tc:SAML:1.0:action:rwedc".to_string(),
        value: "Read".to_string(),
    }];
    let query = create_authz_decision_query(
        "https://sp.example.com",
        &make_name_id(),
        "https://sp.example.com/resource",
        actions,
        None,
    );
    assert_eq!(query.resource, "https://sp.example.com/resource");
    assert_eq!(query.actions.len(), 1);
}

#[test]
fn test_create_assertion_id_request() {
    let req =
        create_assertion_id_request("https://sp.example.com", vec!["_assert1".to_string(), "_assert2".to_string()], None);
    assert_eq!(req.assertion_id_refs.len(), 2);
}

fn query_response(irt: Option<&str>, status: Status) -> Response {
    Response {
        base: ResponseBase {
            id: "_resp1".to_string(),
            version: SamlVersion::V2_0,
            issue_instant: 0,
            destination: None,
            consent: None,
            issuer: None,
            has_signature: false,
            in_response_to: irt.map(|s| s.to_string()),
            status,
        },
        assertions: vec![],
        encrypted_assertions: vec![],
    }
}

#[test]
fn test_process_query_response_success() {
    let response = query_response(Some("_req123"), Status::success());
    let result = process_query_response(&response, "_req123").unwrap();
    assert!(result.is_empty());
}

#[test]
fn test_process_query_response_without_irt_accepted() {
    let response = query_response(None, Status::success());
    assert!(process_query_response(&response, "_req123").is_ok());
}

#[test]
fn test_process_query_response_failures() {
    let response = query_response(Some("_other"), Status::success());
    match process_query_response(&response, "_req123") {
        Err(ProfileError::Other(m)) => assert_eq!(m, "InResponseTo mismatch: expected _req123, got _other"),
        _ => panic!("expected a correlation failure"),
    }
    let response = query_response(Some("_req123"), Status::responder(None));
    match process_query_response(&response, "_req123") {
        Err(ProfileError::ResponseFailure(m)) => assert_eq!(m, "urn:oasis:names:tc:SAML:2.0:status:Responder"),
        _ => panic!("expected a status failure"),
    }
}

#[test]
fn test_create_name_id_mapping_request() {
    let req = create_name_id_mapping_request(
        "https://sp1.example.com",
        &make_name_id(),
        NAMEID_PERSISTENT,
        Some("https://sp2.example.com"),
        Some("https://idp.example.com/mapping"),
    );
    assert!(req.id.starts_with('_'));
    assert_eq!(req.name_id_policy.format, Some(NAMEID_PERSISTENT.to_string()));
    assert_eq!(req.name_id_policy.sp_name_qualifier, Some("https://sp2.example.com".to_string()));
}

#[test]
fn test_process_name_id_mapping_response_success() {
    let mapped = NameIdOrEncryptedId::NameId(NameId {
        value: "mapped-persistent-id".to_string(),
        format: Some(NAMEID_PERSISTENT.to_string()),
        name_qualifier: None,
        sp_name_qualifier: Some("https://sp2.example.com".to_string()),
        sp_provided_id: None,
    });
    let response = create_name_id_mapping_response("https://idp.example.com", "_req123", mapped);
    let result = process_name_id_mapping_response(&response, "_req123").unwrap();
    match result {
        NameIdOrEncryptedId::NameId(nid) => {
            assert_eq!(nid.value, "mapped-persistent-id");
        },
        _ => panic!("expected NameId"),
    }
}

#[test]
fn test_process_name_id_mapping_response_missing_irt_rejected() {
    let mapped = NameIdOrEncryptedId::NameId(NameId {
        value: "mapped-persistent-id".to_string(),
        format: Some(NAMEID_PERSISTENT.to_string()),
        name_qualifier: None,
        sp_name_qualifier: None,
        sp_provided_id: None,
    });
    let mut response = create_name_id_mapping_response("https://idp.example.com", "_req123", mapped);
    response.in_response_to = None;
    assert!(matches!(
        process_name_id_mapping_response(&response, "_req123"),
        Err(ProfileError::NameIdMappingFailed(_))
    ));
}

#[test]
fn test_process_name_id_mapping_response_missing() {
    let response = NameIdMappingResponse {
        id: "_resp1".to_string(),
        version: SamlVersion::V2_0,
        issue_instant: 0,
        destination: None,
        consent: None,
        issuer: None,
        has_signature: false,
        in_response_to: Some("_req123".to_string()),
        status: Status::success(),
        name_id: None,
    };
    let result = process_name_id_mapping_response(&response, "_req123");
    assert!(matches!(result, Err(ProfileError::MappingResponseMissingNameId)));
}

fn make_persistent_name_id() -> NameId {
    NameId {
        value: "old-id-value".to_string(),
        format: Some(NAMEID_PERSISTENT.to_string()),
        name_qualifier: None,
        sp_name_qualifier: None,
        sp_provided_id: None,
    }
}

#[test]
fn test_create_change_name_id_request() {
    let req = create_change_name_id_request(
        "https://sp.example.com",
        &make_persistent_name_id(),
        "new-id-value",
        Some("https://idp.example.com/manage"),
    );
    assert!(req.id.starts_with('_'));
    match &req.new_id_or_terminate {
        NewIdOrTerminate::NewId(v) => assert_eq!(v, "new-id-value"),
        _ => panic!("expected NewId"),
    }
}

#[test]
fn test_create_terminate_name_id_request() {
    let req = create_terminate_name_id_request("https://sp.example.com", &make_persistent_name_id(), None);
    assert!(matches!(req.new_id_or_terminate, NewIdOrTerminate::Terminate));
}

#[test]
fn test_process_manage_name_id_response_success() {
    let resp = create_manage_name_id_response("https://idp.example.com", "_req123", None, Status::success());
    assert!(process_manage_name_id_response(&resp, "_req123").is_ok());
}

#[test]
fn test_process_manage_name_id_response_failure() {
    let resp = create_manage_name_id_response(
        "https://idp.example.com",
        "_req123",
        None,
        Status {
            status_code: StatusCode {
                value: "urn:oasis:names:tc:SAML:2.0:status:Requester".to_string(),
                sub_status: None,
            },
            status_message: Some("Not authorized".to_string()),
            status_detail: None,
        },
    );
    let result = process_manage_name_id_response(&resp, "_req123");
    assert!(result.is_err());
    match result {
        Err(ProfileError::NameIdManagementFailed(m)) => assert_eq!(m, "Not authorized"),
        _ => panic!("expected a status failure"),
    }
}

#[test]
fn instants_before_the_epoch_split_towards_the_past() {
    assert_eq!(split_instant(-1), Some((-1, 999_999_999)));
    assert_eq!(split_instant(1_500_000_000), Some((1, 500_000_000)));
    assert_eq!(split_instant(-2_000_000_000), Some((-2, 0)));
    assert_eq!(split_instant(i128::MAX), None);
    assert_eq!(instant_string(-1), "1969-12-31 23:59:59.999999999 UTC");
    assert_eq!(rfc3339_string(1_704_067_200_000_000_000).as_deref(), Some("2024-01-01T00:00:00Z"));
    assert_eq!(instant_string(i128::MIN), i128::MIN.to_string());
}
