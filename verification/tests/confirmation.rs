use gamlastan::assertion::{
    SubjectConfirmation, SubjectConfirmationData, CM_BEARER, CM_HOLDER_OF_KEY, CM_SENDER_VOUCHES,
};
use gamlastan::profiles::confirmation::{
    build_bearer_confirmation, build_holder_of_key_confirmation, validate_bearer, validate_confirmation,
    validate_holder_of_key, validate_sender_vouches, BearerValidationParams,
};
use gamlastan::profiles::error::ProfileError;

fn make_bearer_data(recipient: &str, not_on_or_after: i128, in_response_to: Option<&str>) -> SubjectConfirmation {
    SubjectConfirmation {
        method: CM_BEARER.to_string(),
        name_id: None,
        subject_confirmation_data: Some(SubjectConfirmationData {
            not_before: None,
            not_on_or_after: Some(not_on_or_after),
            recipient: Some(recipient.to_string()),
            in_response_to: in_response_to.map(|s| s.to_string()),
            address: None,
            key_info_x509_certs: vec![],
        }),
    }
}

fn default_bearer_params() -> BearerValidationParams<'static> {
    BearerValidationParams {
        recipient: "https://sp.example.com/acs",
        in_response_to: Some("_req123"),
        now: unix_now(),
        clock_skew_seconds: 180,
        check_address: false,
        client_address: None,
    }
}

#[test]
fn test_valid_bearer() {
    let conf = make_bearer_data("https://sp.example.com/acs", unix_now() + secs(300), Some("_req123"));
    let result = validate_bearer(&conf, &default_bearer_params());
    assert!(result.valid, "expected valid, got: {:?}", result.reason);
}

#[test]
fn test_bearer_missing_data() {
    let conf = SubjectConfirmation { method: CM_BEARER.to_string(), name_id: None, subject_confirmation_data: None };
    let result = validate_bearer(&conf, &default_bearer_params());
    assert!(!result.valid);
    assert!(result.reason.unwrap().contains("missing SubjectConfirmationData"));
}

#[test]
fn test_bearer_recipient_mismatch() {
    let conf = make_bearer_data("https://evil.example.com/acs", unix_now() + secs(300), Some("_req123"));
    let result = validate_bearer(&conf, &default_bearer_params());
    assert!(!result.valid);
    assert!(result.reason.unwrap().contains("Recipient mismatch"));
}

#[test]
fn test_bearer_expired() {
    let conf = make_bearer_data("https://sp.example.com/acs", unix_now() - secs(600), Some("_req123"));
    let result = validate_bearer(&conf, &default_bearer_params());
    assert!(!result.valid);
    assert!(result.reason.unwrap().contains("expired"));
}

#[test]
fn test_bearer_expired_exact_reason() {
    let conf = make_bearer_data("https://sp.example.com/acs", secs(1000), None);
    let params = BearerValidationParams { now: secs(1180), clock_skew_seconds: 180, in_response_to: None, ..default_bearer_params() };
    let result = validate_bearer(&conf, &params);
    assert_eq!(result.reason.as_deref(), Some("SubjectConfirmationData expired: NotOnOrAfter=1970-01-01 00:16:40 UTC, now=1970-01-01 00:19:40 UTC"));
    let params = BearerValidationParams { now: secs(1180) - 1, ..params };
    assert!(validate_bearer(&conf, &params).valid);
}

#[test]
fn bearer_reason_shows_fractions_of_a_second() {
    let conf = make_bearer_data("https://sp.example.com/acs", secs(1000) + 250_000_000, None);
    let params = BearerValidationParams { now: secs(1200) + 500_000_000, clock_skew_seconds: 180, in_response_to: None, ..default_bearer_params() };
    let result = validate_bearer(&conf, &params);
    assert_eq!(
        result.reason.as_deref(),
        Some("SubjectConfirmationData expired: NotOnOrAfter=1970-01-01 00:16:40.250 UTC, now=1970-01-01 00:20:00.500 UTC")
    );
    let params = BearerValidationParams { now: secs(1180) + 249_999_999, ..params };
    assert!(validate_bearer(&conf, &params).valid);
}

#[test]
fn test_bearer_not_yet_valid() {
    let mut conf = make_bearer_data("https://sp.example.com/acs", secs(5000), None);
    conf.subject_confirmation_data.as_mut().unwrap().not_before = Some(secs(2000));
    let params = BearerValidationParams { now: secs(1000), clock_skew_seconds: 60, in_response_to: None, ..default_bearer_params() };
    let result = validate_bearer(&conf, &params);
    assert_eq!(result.reason.as_deref(), Some("SubjectConfirmationData not yet valid: NotBefore=1970-01-01 00:33:20 UTC, now=1970-01-01 00:16:40 UTC"));
}

#[test]
fn test_bearer_in_response_to_mismatch() {
    let conf = make_bearer_data("https://sp.example.com/acs", unix_now() + secs(300), Some("_wrong"));
    let result = validate_bearer(&conf, &default_bearer_params());
    assert!(!result.valid);
    assert!(result.reason.unwrap().contains("InResponseTo mismatch"));
}

#[test]
fn test_bearer_unsolicited_no_in_response_to() {
    let conf = make_bearer_data("https://sp.example.com/acs", unix_now() + secs(300), None);
    let params = BearerValidationParams { in_response_to: None, ..default_bearer_params() };
    let result = validate_bearer(&conf, &params);
    assert!(result.valid, "expected valid, got: {:?}", result.reason);
}

#[test]
fn test_bearer_address_check() {
    let mut conf = make_bearer_data("https://sp.example.com/acs", unix_now() + secs(300), Some("_req123"));
    conf.subject_confirmation_data.as_mut().unwrap().address = Some("192.168.1.100".to_string());
    let params = BearerValidationParams { check_address: true, client_address: Some("10.0.0.1"), ..default_bearer_params() };
    let result = validate_bearer(&conf, &params);
    assert!(!result.valid);
    assert!(result.reason.unwrap().contains("Address mismatch"));
}

#[test]
fn test_build_bearer_confirmation() {
    let conf = build_bearer_confirmation("https://sp.example.com/acs", unix_now() + secs(300), Some("_req123"), Some("192.168.1.1"));
    assert_eq!(conf.method, CM_BEARER);
    let data = conf.subject_confirmation_data.unwrap();
    assert_eq!(data.recipient.unwrap(), "https://sp.example.com/acs");
    assert_eq!(data.in_response_to.unwrap(), "_req123");
    assert_eq!(data.address.unwrap(), "192.168.1.1");
}

#[test]
fn test_holder_of_key_matching_cert() {
    let cert_der: &[u8] = b"\x30\x82\x01\x00fake-der-cert";
    let conf = build_holder_of_key_confirmation(cert_der, None, None, None);
    let result = validate_holder_of_key(&conf, Some(cert_der));
    assert!(result.valid, "expected valid, got: {:?}", result.reason);
}

#[test]
fn test_holder_of_key_wrong_cert() {
    let conf = build_holder_of_key_confirmation(b"the-real-cert", None, None, None);
    let result = validate_holder_of_key(&conf, Some(b"a-different-cert"));
    assert!(!result.valid);
    assert!(result.reason.unwrap().contains("does not match"));
}

#[test]
fn test_holder_of_key_no_presented_cert() {
    let conf = build_holder_of_key_confirmation(b"the-real-cert", None, None, None);
    let result = validate_holder_of_key(&conf, None);
    assert!(!result.valid);
    assert!(result.reason.unwrap().contains("no client certificate"));
}

#[test]
fn test_holder_of_key_missing_key_info() {
    let conf = SubjectConfirmation { method: CM_HOLDER_OF_KEY.to_string(), name_id: None, subject_confirmation_data: None };
    let result = validate_holder_of_key(&conf, Some(b"cert"));
    assert!(!result.valid);
    assert!(result.reason.unwrap().contains("missing SubjectConfirmationData"));

    let conf = SubjectConfirmation {
        method: CM_HOLDER_OF_KEY.to_string(),
        name_id: None,
        subject_confirmation_data: Some(SubjectConfirmationData {
            not_before: None,
            not_on_or_after: None,
            recipient: None,
            in_response_to: None,
            address: None,
            key_info_x509_certs: vec![],
        }),
    };
    let result = validate_holder_of_key(&conf, Some(b"cert"));
    assert!(!result.valid);
    assert!(result.reason.unwrap().contains("no ds:KeyInfo"));
}

#[test]
fn test_holder_of_key_cert_is_standard_base64() {
    let conf = build_holder_of_key_confirmation(b"\xfb\xff", None, None, None);
    assert_eq!(conf.subject_confirmation_data.unwrap().key_info_x509_certs, vec!["+/8=".to_string()]);
}

#[test]
fn test_holder_of_key_via_dispatch() {
    let cert_der: &[u8] = b"dispatch-cert";
    let conf = build_holder_of_key_confirmation(cert_der, None, None, None);
    let result = validate_confirmation(&conf, None, Some(cert_der)).unwrap();
    assert!(result.valid);
}

#[test]
fn test_sender_vouches() {
    let conf = SubjectConfirmation { method: CM_SENDER_VOUCHES.to_string(), name_id: None, subject_confirmation_data: None };
    let result = validate_sender_vouches(&conf);
    assert!(result.valid);
    let bearer = SubjectConfirmation { method: CM_BEARER.to_string(), name_id: None, subject_confirmation_data: None };
    assert!(!validate_sender_vouches(&bearer).valid);
}

#[test]
fn test_unsupported_method() {
    let conf = SubjectConfirmation { method: "urn:unknown:method".to_string(), name_id: None, subject_confirmation_data: None };
    let result = validate_confirmation(&conf, None, None);
    assert!(result.is_err());
    let bearer = SubjectConfirmation { method: CM_BEARER.to_string(), name_id: None, subject_confirmation_data: None };
    assert!(matches!(validate_confirmation(&bearer, None, None), Err(ProfileError::BearerMissingConfirmationData)));
}

fn unix_now() -> i128 {
    let t = chrono::Utc::now();
    secs(t.timestamp()) + t.timestamp_subsec_nanos() as i128
}

fn secs(s: i64) -> i128 {
    s as i128 * 1_000_000_000
}
