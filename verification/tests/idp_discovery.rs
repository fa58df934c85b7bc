use gamlastan::profiles::error::ProfileError;
use gamlastan::profiles::idp_discovery::{
    add_idp_to_cookie, build_cookie_value, build_return_url, create_discovery_service_response,
    decode_idp_entity_id, default_discovery_response_endpoint, encode_idp_entity_id,
    most_recent_idp, parse_cookie_value, parse_discovery_response_endpoints,
    parse_discovery_service_request, verify_return_url, DiscoveryResponseEndpoint,
    DiscoveryServiceRequest, DEFAULT_RETURN_ID_PARAM,
};

#[test]
fn test_encode_decode_roundtrip() {
    let entity_id = "https://idp.example.com";
    let encoded = encode_idp_entity_id(entity_id);
    let decoded = decode_idp_entity_id(&encoded).unwrap();
    assert_eq!(decoded, entity_id);
}

#[test]
fn test_encode_is_url_safe_unpadded() {
    // base64url without padding of "a?>" is "YT8-".
    assert_eq!(encode_idp_entity_id("a?>"), "YT8-");
    assert_ne!(encode_idp_entity_id("abc"), "abc");
}

#[test]
fn test_decode_rejects_invalid_base64() {
    assert!(matches!(decode_idp_entity_id("@@@"), Err(ProfileError::InvalidCommonDomainCookie)));
}

#[test]
fn test_build_parse_cookie() {
    let idps = &["https://idp1.example.com", "https://idp2.example.com"];
    let cookie = build_cookie_value(idps);
    let parsed = parse_cookie_value(&cookie).unwrap();
    assert_eq!(parsed, idps);
}

#[test]
fn test_parse_empty_cookie() {
    let parsed = parse_cookie_value("").unwrap();
    assert!(parsed.is_empty());
}

#[test]
fn test_parse_cookie_skips_extra_spaces() {
    let parsed = parse_cookie_value("  YWJj   ZGVm ").unwrap();
    assert_eq!(parsed, vec!["abc", "def"]);
}

#[test]
fn test_most_recent_idp() {
    let idps = &["https://idp1.example.com", "https://idp2.example.com"];
    let cookie = build_cookie_value(idps);
    let recent = most_recent_idp(&cookie).unwrap();
    assert_eq!(recent, Some("https://idp2.example.com".to_string()));
}

#[test]
fn test_most_recent_idp_empty_cookie() {
    assert_eq!(most_recent_idp("").unwrap(), None);
}

#[test]
fn test_add_idp_new() {
    let cookie = add_idp_to_cookie(None, "https://idp1.example.com").unwrap();
    let idps = parse_cookie_value(&cookie).unwrap();
    assert_eq!(idps, vec!["https://idp1.example.com"]);
}

#[test]
fn test_add_idp_move_to_end() {
    let initial = build_cookie_value(&["https://idp1.example.com", "https://idp2.example.com"]);
    let cookie = add_idp_to_cookie(Some(&initial), "https://idp1.example.com").unwrap();
    let idps = parse_cookie_value(&cookie).unwrap();
    assert_eq!(idps, vec!["https://idp2.example.com", "https://idp1.example.com"]);
}

#[test]
fn test_build_return_url() {
    let url = build_return_url("https://sp.example.com/ds", "https://idp.example.com", "entityID");
    assert!(url.starts_with("https://sp.example.com/ds?entityID="));
    assert!(url.contains("https%3A%2F%2Fidp.example.com"));
}

#[test]
fn test_build_return_url_exact() {
    let url = build_return_url("https://sp.example.com/ds", "a b~", "id");
    assert_eq!(url, "https://sp.example.com/ds?id=a%20b~");
}

#[test]
fn test_build_return_url_existing_query() {
    let url = build_return_url("https://sp.example.com/ds?foo=bar", "https://idp.example.com", "entityID");
    assert!(url.contains("&entityID="));
}

fn registered_endpoints() -> Vec<DiscoveryResponseEndpoint> {
    vec![
        DiscoveryResponseEndpoint {
            location: "https://sp.example.com/disco".to_string(),
            index: 1,
            is_default: false,
        },
        DiscoveryResponseEndpoint {
            location: "https://sp.example.com/disco-default".to_string(),
            index: 0,
            is_default: true,
        },
    ]
}

#[test]
fn test_parse_discovery_service_request() {
    let query = "entityID=https%3A%2F%2Fsp.example.com&return=https%3A%2F%2Fsp.example.com%2Fdisco%3Fsid%3D42&returnIDParam=idp&isPassive=true";
    let req = parse_discovery_service_request(query).unwrap();
    assert_eq!(req.entity_id, "https://sp.example.com");
    assert_eq!(req.return_url.as_deref(), Some("https://sp.example.com/disco?sid=42"));
    assert_eq!(req.return_id_param, "idp");
    assert!(req.is_passive);
    assert!(req.is_supported_policy());
}

#[test]
fn test_parse_discovery_service_request_defaults() {
    let req = parse_discovery_service_request("entityID=https%3A%2F%2Fsp.example.com").unwrap();
    assert_eq!(req.return_id_param, DEFAULT_RETURN_ID_PARAM);
    assert!(req.return_url.is_none());
    assert!(!req.is_passive);
}

#[test]
fn test_parse_discovery_service_request_missing_entity_id() {
    let result = parse_discovery_service_request("return=https%3A%2F%2Fsp.example.com");
    assert!(matches!(result, Err(ProfileError::DiscoveryMissingEntityId)));
}

#[test]
fn test_parse_discovery_response_endpoints() {
    let extensions = r#"<idpdisc:DiscoveryResponse xmlns:idpdisc="urn:oasis:names:tc:SAML:profiles:SSO:idp-discovery-protocol" Binding="urn:oasis:names:tc:SAML:profiles:SSO:idp-discovery-protocol" index="0" isDefault="true" Location="https://sp.example.com/disco"/>"#;
    let endpoints = parse_discovery_response_endpoints(extensions).unwrap();
    assert_eq!(endpoints.len(), 1);
    assert_eq!(endpoints[0].location, "https://sp.example.com/disco");
    assert!(endpoints[0].is_default);
}

#[test]
fn test_parse_discovery_response_endpoints_undeclared_prefix() {
    let extensions = r#"<idpdisc:DiscoveryResponse index="2" Location="https://sp.example.com/d2"/><mdui:UIInfo/>"#;
    let endpoints = parse_discovery_response_endpoints(extensions).unwrap();
    assert_eq!(endpoints.len(), 1);
    assert_eq!(endpoints[0].index, 2);
}

#[test]
fn test_parse_discovery_response_endpoints_empty() {
    assert!(parse_discovery_response_endpoints("").unwrap().is_empty());
}

#[test]
fn test_parse_discovery_response_endpoints_malformed_is_error() {
    assert!(parse_discovery_response_endpoints("<idpdisc:DiscoveryResponse").is_err());
}

#[test]
fn test_default_endpoint_prefers_is_default_then_first() {
    let eps = registered_endpoints();
    assert_eq!(default_discovery_response_endpoint(&eps).unwrap().index, 0);
    let first_only = vec![eps[0].clone()];
    assert_eq!(default_discovery_response_endpoint(&first_only).unwrap().index, 1);
    assert!(default_discovery_response_endpoint(&[]).is_none());
}

#[test]
fn test_verify_return_url() {
    let registered = registered_endpoints();
    assert!(verify_return_url("https://sp.example.com/disco", &registered));
    assert!(verify_return_url("https://sp.example.com/disco?sid=42", &registered));
    assert!(!verify_return_url("https://sp.example.com/other", &registered));
    assert!(!verify_return_url("https://evil.example.com/disco", &registered));
}

#[test]
fn test_verify_return_url_preserves_registered_query() {
    let registered = vec![DiscoveryResponseEndpoint {
        location: "https://sp.example.com/disco?sid=42".to_string(),
        index: 0,
        is_default: true,
    }];
    assert!(verify_return_url(
        "https://sp.example.com/disco?sid=42&entityID=https%3A%2F%2Fidp.example.com",
        &registered,
    ));
    assert!(!verify_return_url(
        "https://sp.example.com/disco?sid=99&entityID=https%3A%2F%2Fidp.example.com",
        &registered,
    ));
}

fn request(return_url: Option<&str>, is_passive: bool) -> DiscoveryServiceRequest {
    DiscoveryServiceRequest {
        entity_id: "https://sp.example.com".to_string(),
        return_url: return_url.map(|s| s.to_string()),
        return_id_param: "entityID".to_string(),
        policy: None,
        is_passive,
    }
}

#[test]
fn test_create_discovery_service_response_selected() {
    let req = request(Some("https://sp.example.com/disco?sid=42"), false);
    let url = create_discovery_service_response(&req, &registered_endpoints(), Some("https://idp.example.com")).unwrap();
    assert!(url.starts_with("https://sp.example.com/disco?sid=42&entityID="));
    assert!(url.contains("https%3A%2F%2Fidp.example.com"));
}

#[test]
fn test_create_discovery_service_response_passive_none() {
    let req = request(Some("https://sp.example.com/disco"), true);
    let url = create_discovery_service_response(&req, &registered_endpoints(), None).unwrap();
    assert_eq!(url, "https://sp.example.com/disco");
}

#[test]
fn test_create_discovery_service_response_unregistered_return() {
    let req = request(Some("https://evil.example.com/phish"), false);
    let result = create_discovery_service_response(&req, &registered_endpoints(), Some("https://idp.example.com"));
    assert!(matches!(result, Err(ProfileError::DiscoveryReturnUrlNotRegistered(_))));
}

#[test]
fn test_create_discovery_service_response_default_endpoint() {
    let req = request(None, false);
    let url = create_discovery_service_response(&req, &registered_endpoints(), Some("https://idp.example.com")).unwrap();
    assert!(url.starts_with("https://sp.example.com/disco-default?entityID="));
}

#[test]
fn test_create_discovery_service_response_no_return_available() {
    let req = request(None, false);
    let result = create_discovery_service_response(&req, &[], Some("https://idp.example.com"));
    assert!(matches!(result, Err(ProfileError::DiscoveryNoReturnUrl)));
}

#[test]
fn test_unsupported_policy_detected() {
    let req = DiscoveryServiceRequest {
        entity_id: "https://sp.example.com".to_string(),
        return_url: None,
        return_id_param: "entityID".to_string(),
        policy: Some("urn:example:custom-policy".to_string()),
        is_passive: false,
    };
    assert!(!req.is_supported_policy());
}
