use gamlastan::bindings::paos::{paos_request_header_xml, PaosRequest, ECP_NS, PAOS_CONTENT_TYPE};
use gamlastan::bindings::soap::soap_envelope_wrap;
use gamlastan::profiles::error::ProfileError;
use gamlastan::profiles::sso::ecp::{
    create_ecp_authn_request_envelope, create_ecp_response_envelope, ecp_client_http_headers, ecp_fault_envelope,
    extract_idp_list, is_ecp_request, parse_ecp_authn_request_envelope, parse_ecp_response_at_sp,
    parse_idp_ecp_request, verify_acs_url_match, EcpAuthnRequestOptions,
};

const AUTHN_REQUEST: &str = r#"<samlp:AuthnRequest xmlns:samlp="urn:oasis:names:tc:SAML:2.0:protocol" ID="_req1" Version="2.0" IssueInstant="2026-01-01T00:00:00Z" AssertionConsumerServiceURL="https://sp.example.com/acs"/>"#;
const SAML_RESPONSE: &str = r#"<samlp:Response xmlns:samlp="urn:oasis:names:tc:SAML:2.0:protocol" ID="_resp1" Version="2.0" IssueInstant="2026-01-01T00:00:00Z"/>"#;

fn sp_options<'a>() -> EcpAuthnRequestOptions<'a> {
    EcpAuthnRequestOptions {
        authn_request_xml: AUTHN_REQUEST,
        sp_entity_id: "https://sp.example.com",
        response_consumer_url: "https://sp.example.com/acs",
        message_id: Some("_paos_msg_1"),
        provider_name: Some("Example SP"),
        is_passive: false,
        relay_state: Some("state-42"),
        idp_list: &[],
    }
}

#[test]
fn test_verify_acs_url_match_ok() {
    assert!(verify_acs_url_match("https://sp.example.com/acs", "https://sp.example.com/acs").is_ok());
}

#[test]
fn test_verify_acs_url_match_mismatch() {
    let result = verify_acs_url_match("https://evil.example.com/acs", "https://sp.example.com/acs");
    assert!(matches!(result, Err(ProfileError::EcpAcsUrlMismatch)));
}

#[test]
fn test_is_ecp_request_valid() {
    assert!(is_ecp_request(Some("text/html, application/vnd.paos+xml"), Some("ver=\"urn:liberty:paos:2003-08\""),));
}

#[test]
fn test_is_ecp_request_missing_accept() {
    assert!(!is_ecp_request(Some("text/html"), Some("ver=\"urn:liberty:paos:2003-08\""),));
}

#[test]
fn test_is_ecp_request_missing_paos() {
    assert!(!is_ecp_request(Some("application/vnd.paos+xml"), None,));
}

#[test]
fn test_is_ecp_request_no_headers() {
    assert!(!is_ecp_request(None, None));
}

#[test]
fn test_ecp_client_http_headers() {
    let headers = ecp_client_http_headers();
    assert_eq!(headers[0].0, "Accept");
    assert!(headers[0].1.contains("application/vnd.paos+xml"));
    assert_eq!(headers[1].0, "PAOS");
    assert!(headers[1].1.contains("urn:liberty:paos:2003-08"));
    assert!(headers[1].1.contains(ECP_NS));
}

#[test]
fn test_ecp_client_http_headers_exact() {
    let headers = ecp_client_http_headers();
    assert_eq!(headers[0].1, "text/html; application/vnd.paos+xml");
    assert_eq!(headers[1].1, "ver=\"urn:liberty:paos:2003-08\";\"urn:oasis:names:tc:SAML:2.0:profiles:SSO:ecp\"");
}

#[test]
fn test_sp_envelope_roundtrip_to_ecp_client() {
    let mut options = sp_options();
    let idps = vec!["https://idp.example.com".to_string()];
    options.idp_list = &idps;
    let envelope = create_ecp_authn_request_envelope(&options).unwrap();

    let parsed = parse_ecp_authn_request_envelope(envelope.as_bytes()).unwrap();
    assert!(parsed.authn_request_xml.contains("AuthnRequest"));
    assert_eq!(parsed.response_consumer_url, "https://sp.example.com/acs");
    assert_eq!(parsed.message_id.as_deref(), Some("_paos_msg_1"));
    assert_eq!(parsed.issuer.as_deref(), Some("https://sp.example.com"));
    assert_eq!(parsed.provider_name.as_deref(), Some("Example SP"));
    assert_eq!(parsed.is_passive, Some(false));
    assert_eq!(parsed.relay_state.as_deref(), Some("state-42"));
    assert_eq!(parsed.idp_list, vec!["https://idp.example.com"]);
}

#[test]
fn test_sp_envelope_requires_issuer() {
    let mut options = sp_options();
    options.sp_entity_id = "";
    assert!(matches!(create_ecp_authn_request_envelope(&options), Err(ProfileError::MissingIssuer)));
}

#[test]
fn test_sp_envelope_requires_response_consumer_url() {
    let mut options = sp_options();
    options.response_consumer_url = "";
    match create_ecp_authn_request_envelope(&options) {
        Err(ProfileError::Other(m)) => assert_eq!(m, "responseConsumerURL must not be empty"),
        _ => panic!("expected an error"),
    }
}

#[test]
fn test_parse_phase1_missing_paos_request() {
    let envelope = soap_envelope_wrap(AUTHN_REQUEST, None);
    let result = parse_ecp_authn_request_envelope(envelope.as_bytes());
    assert!(matches!(result, Err(ProfileError::MissingPaosHeader)));
}

#[test]
fn test_parse_phase1_missing_ecp_request() {
    let paos_request = PaosRequest {
        response_consumer_url: "https://sp.example.com/acs".to_string(),
        service: Some(ECP_NS.to_string()),
        message_id: Some("_paos_msg_1".to_string()),
    };
    let headers = paos_request_header_xml(&paos_request);
    let envelope = soap_envelope_wrap(AUTHN_REQUEST, Some(&headers));

    let result = parse_ecp_authn_request_envelope(envelope.as_bytes());
    assert!(matches!(result, Err(ProfileError::EcpMissingRequestHeader)));
}

#[test]
fn test_full_ecp_conversation() {
    let envelope = create_ecp_authn_request_envelope(&sp_options()).unwrap();
    let ecp = parse_ecp_authn_request_envelope(envelope.as_bytes()).unwrap();

    let idp_envelope = ecp.idp_soap_envelope();
    assert!(idp_envelope.contains("soap:Envelope"));
    assert!(idp_envelope.contains("AuthnRequest"));

    let request_xml = parse_idp_ecp_request(idp_envelope.as_bytes()).unwrap();
    assert!(request_xml.contains("AuthnRequest"));
    let idp_response = create_ecp_response_envelope(SAML_RESPONSE, "https://sp.example.com/acs").unwrap();

    let relay = ecp.process_idp_response(idp_response.as_bytes()).unwrap();
    assert_eq!(relay.destination_url, "https://sp.example.com/acs");
    assert_eq!(relay.content_type, PAOS_CONTENT_TYPE);
    assert!(relay.envelope.contains("paos:Response"));
    assert!(relay.envelope.contains("refToMessageID=\"_paos_msg_1\""));
    assert!(relay.envelope.contains("state-42"));

    let sp_response = parse_ecp_response_at_sp(relay.envelope.as_bytes()).unwrap();
    assert!(sp_response.response_xml.contains("Response"));
    assert_eq!(sp_response.relay_state.as_deref(), Some("state-42"));
}

#[test]
fn test_ecp_client_rejects_acs_mismatch() {
    let envelope = create_ecp_authn_request_envelope(&sp_options()).unwrap();
    let ecp = parse_ecp_authn_request_envelope(envelope.as_bytes()).unwrap();

    let idp_response = create_ecp_response_envelope(SAML_RESPONSE, "https://evil.example.com/acs").unwrap();
    let result = ecp.process_idp_response(idp_response.as_bytes());
    assert!(matches!(result, Err(ProfileError::EcpAcsUrlMismatch)));
}

#[test]
fn test_ecp_client_missing_response_header() {
    let envelope = create_ecp_authn_request_envelope(&sp_options()).unwrap();
    let ecp = parse_ecp_authn_request_envelope(envelope.as_bytes()).unwrap();

    let idp_response = soap_envelope_wrap(SAML_RESPONSE, None);
    let result = ecp.process_idp_response(idp_response.as_bytes());
    assert!(matches!(result, Err(ProfileError::EcpMissingResponseHeader)));
}

#[test]
fn test_ecp_fault_envelope() {
    let fault = ecp_fault_envelope("ACS URL mismatch");
    assert!(fault.contains("soap:Fault"));
    assert!(fault.contains("ACS URL mismatch"));
}

#[test]
fn test_parse_envelope_rejects_fault() {
    let fault = ecp_fault_envelope("boom");
    let result = parse_ecp_response_at_sp(fault.as_bytes());
    assert!(result.is_err());
}

#[test]
fn test_parse_envelope_fault_message() {
    let fault = ecp_fault_envelope("boom");
    match parse_ecp_response_at_sp(fault.as_bytes()) {
        Err(ProfileError::Other(m)) => assert_eq!(m, "SOAP fault in ECP envelope: soap:Serverboom"),
        _ => panic!("expected the fault to be refused"),
    }
}

#[test]
fn test_extract_idp_list() {
    let idps = vec!["https://idp.example.com".to_string()];
    assert_eq!(extract_idp_list(&idps), idps);
}

#[test]
fn test_parse_envelope_rejects_non_soap_namespace() {
    let xml = r#"<Envelope xmlns="urn:not-soap"><Body><samlp:Response xmlns:samlp="urn:oasis:names:tc:SAML:2.0:protocol"/></Body></Envelope>"#;
    let result = parse_ecp_response_at_sp(xml.as_bytes());
    assert!(result.is_err());
}

#[test]
fn test_parse_envelope_non_soap_message() {
    let xml = r#"<Envelope xmlns="urn:not-soap"><Body/></Envelope>"#;
    match parse_ecp_response_at_sp(xml.as_bytes()) {
        Err(ProfileError::Other(m)) => assert_eq!(m, "expected SOAP 1.1 Envelope, got {urn:not-soap}Envelope"),
        _ => panic!("expected a refusal"),
    }
}

#[test]
fn test_parse_envelope_rejects_multiple_body_children() {
    let xml = r#"<S:Envelope xmlns:S="http://schemas.xmlsoap.org/soap/envelope/"><S:Body><samlp:Response xmlns:samlp="urn:oasis:names:tc:SAML:2.0:protocol" ID="_decoy"/><samlp:Response xmlns:samlp="urn:oasis:names:tc:SAML:2.0:protocol" ID="_real"/></S:Body></S:Envelope>"#;
    let result = parse_ecp_response_at_sp(xml.as_bytes());
    assert!(result.is_err());
}

#[test]
fn test_parse_envelope_rejects_multiple_body_elements() {
    let xml = r#"<S:Envelope xmlns:S="http://schemas.xmlsoap.org/soap/envelope/"><S:Body><samlp:Response xmlns:samlp="urn:oasis:names:tc:SAML:2.0:protocol" ID="_decoy"/></S:Body><S:Body><samlp:Response xmlns:samlp="urn:oasis:names:tc:SAML:2.0:protocol" ID="_real"/></S:Body></S:Envelope>"#;
    let result = parse_ecp_response_at_sp(xml.as_bytes());
    assert!(result.is_err());
}

#[test]
fn test_parse_envelope_rejects_empty_body() {
    let xml = r#"<S:Envelope xmlns:S="http://schemas.xmlsoap.org/soap/envelope/"><S:Body/></S:Envelope>"#;
    match parse_ecp_response_at_sp(xml.as_bytes()) {
        Err(ProfileError::Other(m)) => assert_eq!(m, "no SAML element in SOAP Body"),
        _ => panic!("expected a refusal"),
    }
}

#[test]
fn test_parse_envelope_rejects_invalid_utf8() {
    let bytes = [0x3cu8, 0xff, 0x3e];
    match parse_ecp_response_at_sp(&bytes) {
        Err(ProfileError::Other(m)) => assert!(m.starts_with("envelope is not valid UTF-8: ")),
        _ => panic!("expected a refusal"),
    }
}

#[test]
fn test_create_ecp_response_envelope_requires_acs() {
    match create_ecp_response_envelope(SAML_RESPONSE, "") {
        Err(ProfileError::Other(m)) => assert_eq!(m, "AssertionConsumerServiceURL must not be empty"),
        _ => panic!("expected an error"),
    }
}
