use gamlastan::metadata::types::endpoint::Endpoint;
use gamlastan::metadata::types::role_descriptor::{RoleDescriptorBase, SsoDescriptorBase};
use gamlastan::profiles::logout::{
    create_idp_propagation_request, create_logout_response, create_logout_response_partial,
    create_logout_response_success, create_sp_logout_request, find_slo_endpoint,
    validate_logout_request, LogoutPropagationResult, LogoutTarget, SpLogoutOrchestrator,
    SpLogoutRequestOptions, TargetLogoutState, REASON_ADMIN, REASON_USER,
};
use gamlastan::profiles::error::ProfileError;
use gamlastan::profiles::session::SessionParticipant;
use gamlastan::protocol::{
    generate_saml_id, NameId, NameIdOrEncryptedId, Status, StatusCode, STATUS_PARTIAL_LOGOUT,
};

fn make_name_id() -> NameId {
    NameId {
        value: "user@example.com".to_string(),
        format: Some("urn:oasis:names:tc:SAML:1.1:nameid-format:emailAddress".to_string()),
        name_qualifier: None,
        sp_name_qualifier: None,
        sp_provided_id: None,
    }
}

#[test]
fn test_create_sp_logout_request() {
    let options = SpLogoutRequestOptions {
        sp_entity_id: "https://sp.example.com".to_string(),
        name_id: make_name_id(),
        session_indexes: vec!["_sess1".to_string()],
        reason: Some(REASON_USER.to_string()),
        destination: Some("https://idp.example.com/slo".to_string()),
        not_on_or_after: None,
    };
    let req = create_sp_logout_request(&options).unwrap();
    assert!(req.id.starts_with('_'));
    assert_eq!(req.issuer.as_ref().unwrap().value, "https://sp.example.com");
    assert_eq!(req.session_indexes, vec!["_sess1"]);
    assert_eq!(req.reason, Some(REASON_USER.to_string()));
    assert!(req.not_on_or_after.is_some());
    assert_eq!(req.not_on_or_after, Some(req.issue_instant + secs(300)));
}

#[test]
fn test_create_sp_logout_request_missing_issuer() {
    let options = SpLogoutRequestOptions {
        sp_entity_id: String::new(),
        name_id: make_name_id(),
        session_indexes: vec![],
        reason: None,
        destination: None,
        not_on_or_after: None,
    };
    assert!(matches!(create_sp_logout_request(&options), Err(ProfileError::MissingIssuer)));
}

#[test]
fn test_generated_ids_are_fresh_hex() {
    let a = generate_saml_id();
    let b = generate_saml_id();
    assert_eq!(a.len(), 33);
    assert!(a.starts_with('_'));
    assert!(a[1..].chars().all(|c| c.is_ascii_hexdigit() && !c.is_ascii_uppercase()));
    assert_ne!(a, b);
}

#[test]
fn test_create_idp_propagation_request() {
    let participant = SessionParticipant {
        entity_id: "https://sp.example.com".to_string(),
        name_id_value: "user@example.com".to_string(),
        name_id_format: Some("urn:oasis:names:tc:SAML:1.1:nameid-format:emailAddress".to_string()),
        name_qualifier: None,
        sp_name_qualifier: None,
        sp_provided_id: None,
        session_indexes: vec!["_sess1".to_string()],
        slo_url: Some("https://sp.example.com/slo".to_string()),
        slo_binding: None,
        session_not_on_or_after: None,
    };
    let req = create_idp_propagation_request("https://idp.example.com", &participant);
    assert_eq!(req.issuer.as_ref().unwrap().value, "https://idp.example.com");
    assert_eq!(req.destination, Some("https://sp.example.com/slo".to_string()));
    assert_eq!(req.session_indexes, vec!["_sess1"]);
    assert_eq!(req.reason, Some(REASON_USER.to_string()));
}

#[test]
fn test_create_logout_response_success() {
    let resp = create_logout_response_success("https://idp.example.com", "_req123", Some("https://sp.example.com/slo"));
    assert!(resp.status.is_success());
    assert_eq!(resp.in_response_to, Some("_req123".to_string()));
    assert_eq!(resp.destination, Some("https://sp.example.com/slo".to_string()));
}

#[test]
fn test_create_logout_response_partial() {
    let resp = create_logout_response_partial("https://idp.example.com", "_req123", None);
    assert!(resp.status.status_code.sub_status.is_some());
    let sub = resp.status.status_code.sub_status.unwrap();
    assert!(sub.value.contains("PartialLogout"));
}

fn options_with_validity(not_on_or_after: Option<i128>) -> SpLogoutRequestOptions {
    SpLogoutRequestOptions {
        sp_entity_id: "https://sp.example.com".to_string(),
        name_id: make_name_id(),
        session_indexes: vec!["_sess1".to_string()],
        reason: None,
        destination: None,
        not_on_or_after,
    }
}

#[test]
fn test_validate_logout_request_valid() {
    let req = create_sp_logout_request(&options_with_validity(None)).unwrap();
    assert!(validate_logout_request(&req, unix_now(), 180).is_ok());
}

#[test]
fn test_validate_logout_request_expired() {
    let req = create_sp_logout_request(&options_with_validity(Some(unix_now() - secs(600)))).unwrap();
    assert!(validate_logout_request(&req, unix_now(), 180).is_err());
}

#[test]
fn test_validate_logout_request_skew_boundary() {
    let req = create_sp_logout_request(&options_with_validity(Some(1000))).unwrap();
    assert!(validate_logout_request(&req, 1179, 180).is_ok());
    assert!(matches!(validate_logout_request(&req, 1180, 180), Err(ProfileError::Other(_))));
}

#[test]
fn test_validate_logout_request_empty_name_id() {
    let mut req = create_sp_logout_request(&options_with_validity(None)).unwrap();
    req.name_id = NameIdOrEncryptedId::NameId(NameId { value: String::new(), ..make_name_id() });
    assert!(matches!(validate_logout_request(&req, unix_now(), 0), Err(ProfileError::MissingNameId)));
}

#[test]
fn test_logout_propagation_result() {
    let result = LogoutPropagationResult { total_participants: 3, successful_logouts: 3, failed_participants: vec![] };
    assert!(result.is_complete());
    assert!(!result.is_partial());

    let result = LogoutPropagationResult {
        total_participants: 3,
        successful_logouts: 2,
        failed_participants: vec!["sp3.example.com".to_string()],
    };
    assert!(!result.is_complete());
    assert!(result.is_partial());
}

fn make_target(entity_id: &str) -> LogoutTarget {
    LogoutTarget {
        entity_id: entity_id.to_string(),
        name_id: make_name_id(),
        session_indexes: vec!["_sess1".to_string()],
        slo_url: format!("{entity_id}/slo"),
        slo_binding: "urn:oasis:names:tc:SAML:2.0:bindings:SOAP".to_string(),
    }
}

#[test]
fn test_orchestrator_full_success() {
    let mut orch = SpLogoutOrchestrator::new("https://sp.example.com");
    orch.add_target(make_target("https://idp1.example.com"));
    orch.add_target(make_target("https://idp2.example.com"));
    assert!(!orch.is_complete());

    while let Some(pending) = orch.next_request().unwrap() {
        assert_eq!(pending.destination, format!("{}/slo", pending.entity_id));
        assert_eq!(pending.request.issuer.as_ref().unwrap().value, "https://sp.example.com");
        let response =
            create_logout_response_success(&pending.entity_id, &pending.request.id, Some("https://sp.example.com/slo"));
        let outcome = orch.handle_response(&response).unwrap();
        assert!(outcome.success);
        assert!(!outcome.partial);
    }

    assert!(orch.is_complete());
    let progress = orch.progress();
    assert_eq!(progress.total_participants, 2);
    assert!(progress.is_complete());
}

#[test]
fn test_orchestrator_partial_logout_response() {
    let mut orch = SpLogoutOrchestrator::new("https://sp.example.com");
    orch.add_target(make_target("https://idp1.example.com"));

    let pending = orch.next_request().unwrap().unwrap();
    let response = create_logout_response_partial("https://idp1.example.com", &pending.request.id, None);
    let outcome = orch.handle_response(&response).unwrap();
    assert!(outcome.success);
    assert!(outcome.partial);
    assert!(orch.is_complete());
    assert!(matches!(
        orch.target_state("https://idp1.example.com"),
        Some(TargetLogoutState::Failed { reason }) if reason == STATUS_PARTIAL_LOGOUT
    ));

    let progress = orch.progress();
    assert_eq!(progress.successful_logouts, 0);
    assert_eq!(progress.failed_participants, vec!["https://idp1.example.com".to_string()]);
}

#[test]
fn test_orchestrator_failure_and_mark_failed() {
    let mut orch = SpLogoutOrchestrator::new("https://sp.example.com");
    orch.add_target(make_target("https://idp1.example.com"));
    orch.add_target(make_target("https://idp2.example.com"));

    let pending = orch.next_request().unwrap().unwrap();
    let response = create_logout_response(
        &pending.entity_id,
        &pending.request.id,
        None,
        Status {
            status_code: StatusCode { value: "urn:oasis:names:tc:SAML:2.0:status:Responder".to_string(), sub_status: None },
            status_message: None,
            status_detail: None,
        },
    );
    let outcome = orch.handle_response(&response).unwrap();
    assert!(!outcome.success);

    let pending = orch.next_request().unwrap().unwrap();
    orch.mark_failed(&pending.entity_id, "connection refused");

    assert!(orch.is_complete());
    let progress = orch.progress();
    assert_eq!(progress.successful_logouts, 0);
    assert_eq!(progress.failed_participants.len(), 2);
    assert!(matches!(orch.target_state("https://idp2.example.com"), Some(TargetLogoutState::Failed { .. })));
}

#[test]
fn test_orchestrator_rejects_unknown_in_response_to() {
    let mut orch = SpLogoutOrchestrator::new("https://sp.example.com");
    orch.add_target(make_target("https://idp1.example.com"));
    let _ = orch.next_request().unwrap().unwrap();

    let response = create_logout_response_success("https://idp1.example.com", "_unknown", None);
    assert!(orch.handle_response(&response).is_err());
}

#[test]
fn test_orchestrator_rejects_issuer_mismatch() {
    let mut orch = SpLogoutOrchestrator::new("https://sp.example.com");
    orch.add_target(make_target("https://idp1.example.com"));
    let pending = orch.next_request().unwrap().unwrap();

    let response = create_logout_response_success("https://evil.example.com", &pending.request.id, None);
    match orch.handle_response(&response) {
        Err(ProfileError::Other(m)) => assert_eq!(
            m,
            "LogoutResponse issuer https://evil.example.com does not match target entity https://idp1.example.com"
        ),
        _ => panic!("expected an issuer mismatch"),
    }
    assert!(matches!(orch.target_state("https://idp1.example.com"), Some(TargetLogoutState::InProgress { .. })));
}

#[test]
fn test_orchestrator_with_reason_and_empty_sp() {
    let mut orch = SpLogoutOrchestrator::new("https://sp.example.com").with_reason(REASON_ADMIN);
    orch.add_target(make_target("https://idp1.example.com"));
    let pending = orch.next_request().unwrap().unwrap();
    assert_eq!(pending.request.reason, Some(REASON_ADMIN.to_string()));
    assert!(orch.next_request().unwrap().is_none());

    let mut empty = SpLogoutOrchestrator::new("");
    empty.add_target(make_target("https://idp1.example.com"));
    assert!(matches!(empty.next_request(), Err(ProfileError::MissingIssuer)));
    assert!(matches!(empty.target_state("https://idp1.example.com"), Some(TargetLogoutState::Pending)));
    assert!(empty.target_state("https://unknown.example.com").is_none());
}

#[test]
fn test_find_slo_endpoint() {
    let base = SsoDescriptorBase {
        base: RoleDescriptorBase::new(vec!["urn:oasis:names:tc:SAML:2.0:protocol".to_string()]),
        artifact_resolution_services: vec![],
        single_logout_services: vec![
            Endpoint::new("urn:oasis:names:tc:SAML:2.0:bindings:HTTP-Redirect", "https://idp.example.com/slo/redirect"),
            Endpoint::new("urn:oasis:names:tc:SAML:2.0:bindings:SOAP", "https://idp.example.com/slo/soap"),
        ],
        manage_name_id_services: vec![],
        name_id_formats: vec![],
    };

    let ep = find_slo_endpoint(&base, "urn:oasis:names:tc:SAML:2.0:bindings:SOAP").unwrap();
    assert!(ep.location.contains("soap"));

    let ep = find_slo_endpoint(&base, "urn:oasis:names:tc:SAML:2.0:bindings:HTTP-POST").unwrap();
    assert!(ep.location.contains("redirect"));
}

fn unix_now() -> i128 {
    let t = chrono::Utc::now();
    secs(t.timestamp()) + t.timestamp_subsec_nanos() as i128
}

#[test]
fn expired_logout_request_reports_both_instants() {
    let req = create_sp_logout_request(&options_with_validity(Some(secs(1_000)))).unwrap();
    match validate_logout_request(&req, secs(1_180), 60) {
        Err(ProfileError::Other(m)) => assert_eq!(
            m,
            "LogoutRequest expired: NotOnOrAfter=1970-01-01 00:16:40 UTC, now=1970-01-01 00:19:40 UTC"
        ),
        other => panic!("unexpected {other:?}"),
    }
}

#[test]
fn complete_orchestrator_progress_accounts_for_every_target() {
    let mut orch = SpLogoutOrchestrator::new("https://sp.example.com");
    orch.add_target(make_target("https://idp1.example.com"));
    orch.add_target(make_target("https://idp2.example.com"));
    orch.mark_failed("https://idp1.example.com", "timeout");
    orch.mark_failed("https://idp2.example.com", "timeout");
    assert!(orch.is_complete());
    let p = orch.progress();
    assert_eq!(p.successful_logouts + p.failed_participants.len(), p.total_participants);
    assert_eq!(p.total_participants, 2);
}

fn secs(s: i64) -> i128 {
    s as i128 * 1_000_000_000
}

#[test]
fn logout_expiry_is_exact_to_the_nanosecond() {
    let req = create_sp_logout_request(&options_with_validity(Some(secs(1_000) + 1))).unwrap();
    assert!(validate_logout_request(&req, secs(1_060), 60).is_ok());
    match validate_logout_request(&req, secs(1_060) + 1, 60) {
        Err(ProfileError::Other(m)) => assert_eq!(
            m,
            "LogoutRequest expired: NotOnOrAfter=1970-01-01 00:16:40.000000001 UTC, now=1970-01-01 00:17:40.000000001 UTC"
        ),
        other => panic!("unexpected {other:?}"),
    }
}
