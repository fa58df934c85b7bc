use gamlastan::profiles::error::ProfileError;
use gamlastan::profiles::swedenconnect::authn_context::{
    requested_authn_context, validate_authn_context, LevelOfAssurance,
};
use gamlastan::profiles::swedenconnect::config::{
    SwedenConnectConfig, SwedenConnectRole, MAX_CLOCK_SKEW_SECONDS,
};
use gamlastan::profiles::swedenconnect::constants;
use gamlastan::profiles::swedenconnect::error::SwedenConnectError;
use gamlastan::profiles::swedenconnect::idp::{
    cancel_status, fraud_status, no_authn_context_status, possible_fraud_status,
};
use gamlastan::profiles::swedenconnect::metadata::{
    assurance_certifications, discovery_response_xml, entity_attribute_values,
    entity_attributes_xml, entity_categories, extensions, is_signature_service, scope_xml,
    supports_scal2, Logo, UiInfo,
};
use gamlastan::profiles::swedenconnect::principal_selection::{
    MatchValue, PrincipalSelection, RequestedPrincipalSelection,
};
use gamlastan::profiles::swedenconnect::sign_message::{SadRequest, SignMessage, SignMessageMimeType};
use gamlastan::protocol::AuthnContextComparison;
use gamlastan::metadata::types::extensions::Extensions;

// ── constants ────────────────────────────────────────────────────────────────

#[test]
fn test_algorithm_predicates() {
    assert!(constants::is_mandatory_signature_algorithm(constants::SIG_RSA_SHA256));
    assert!(!constants::is_mandatory_signature_algorithm(constants::SIG_RSA_SHA384));
    assert!(constants::is_allowed_signature_algorithm(constants::SIG_ECDSA_SHA512));
    assert!(!constants::is_allowed_signature_algorithm("http://www.w3.org/2000/09/xmldsig#rsa-sha1"));
    assert!(constants::is_allowed_digest_algorithm(constants::DIGEST_SHA384));
    assert!(!constants::is_allowed_digest_algorithm(constants::DIGEST_SHA1));
    assert!(constants::is_allowed_block_encryption_algorithm(constants::ENC_AES256_GCM));
    assert!(!constants::is_allowed_block_encryption_algorithm("http://www.w3.org/2001/04/xmlenc#tripledes-cbc"));
    assert!(constants::is_allowed_key_transport_algorithm(constants::KEYTRANSPORT_RSA_OAEP_MGF1P));
    assert!(!constants::is_allowed_key_transport_algorithm(constants::KEYTRANSPORT_RSA_1_5));
    assert!(constants::is_broken_algorithm(constants::DIGEST_SHA1));
    assert!(constants::is_broken_algorithm(constants::KEYTRANSPORT_RSA_1_5));
    assert!(!constants::is_broken_algorithm(constants::DIGEST_SHA256));
}

// ── authn_context ────────────────────────────────────────────────────────────

#[test]
fn test_loa_uri_roundtrip() {
    for loa in [
        LevelOfAssurance::Loa1,
        LevelOfAssurance::Loa3,
        LevelOfAssurance::EidasNfSubstantial,
        LevelOfAssurance::UncertifiedLoa3,
    ] {
        assert_eq!(LevelOfAssurance::from_uri(loa.as_uri()), Some(loa));
    }
    assert_eq!(LevelOfAssurance::from_uri("http://example.com/unknown"), None);
}

#[test]
fn test_loa_as_uri_exact() {
    assert_eq!(LevelOfAssurance::Loa2NonResident.as_uri(), "http://id.elegnamnden.se/loa/1.0/loa2-nonresident");
    assert_eq!(LevelOfAssurance::EidasHigh.as_uri(), constants::EIDAS_HIGH);
}

#[test]
fn test_requested_authn_context_is_exact() {
    let ctx = requested_authn_context(&[constants::LOA3, constants::EIDAS_NF_SUBSTANTIAL]);
    assert_eq!(ctx.comparison, AuthnContextComparison::Exact);
    assert_eq!(ctx.authn_context_class_refs.len(), 2);
    assert_eq!(ctx.authn_context_class_refs[1], constants::EIDAS_NF_SUBSTANTIAL);
}

#[test]
fn test_validate_authn_context_match() {
    let requested = vec![constants::LOA3.to_string()];
    assert!(validate_authn_context(Some(constants::LOA3), &requested).is_ok());
}

#[test]
fn test_validate_authn_context_mismatch() {
    let requested = vec![constants::LOA3.to_string()];
    let err = validate_authn_context(Some(constants::LOA2), &requested).unwrap_err();
    assert!(matches!(err, SwedenConnectError::LevelOfAssuranceMismatch { .. }));
}

#[test]
fn test_validate_authn_context_missing() {
    let requested = vec![constants::LOA3.to_string()];
    assert!(matches!(
        validate_authn_context(None, &requested),
        Err(SwedenConnectError::MissingAuthnContextClassRef)
    ));
}

#[test]
fn test_validate_authn_context_no_request_accepts_any() {
    assert!(validate_authn_context(Some(constants::LOA4), &[]).is_ok());
    assert!(validate_authn_context(None, &[]).is_err());
}

// ── config ───────────────────────────────────────────────────────────────────

#[test]
fn test_sp_defaults() {
    let cfg = SwedenConnectConfig::service_provider("https://sp.example.se", vec![constants::LOA3.into()]);
    assert_eq!(cfg.role, SwedenConnectRole::ServiceProvider);
    assert_eq!(cfg.name_id_format, constants::NAMEID_PERSISTENT);
    assert!(!cfg.accept_unsolicited);
    assert!(cfg.validate().is_ok());
}

#[test]
fn test_security_config_is_strict() {
    let cfg = SwedenConnectConfig::service_provider("https://sp.example.se", vec![constants::LOA3.into()]);
    let sec = cfg.security_config();
    assert!(sec.require_signed_responses);
    assert!(sec.require_encrypted_assertions);
    assert!(sec.verify_destination);
    assert!(sec.verify_recipient);
    assert_eq!(sec.clock_skew_seconds, MAX_CLOCK_SKEW_SECONDS);
}

#[test]
fn test_clock_skew_clamped() {
    let mut cfg = SwedenConnectConfig::service_provider("https://sp.example.se", vec![constants::LOA3.into()]);
    cfg.clock_skew_seconds = 600;
    assert_eq!(cfg.effective_clock_skew(), MAX_CLOCK_SKEW_SECONDS);
    assert!(matches!(cfg.validate(), Err(SwedenConnectError::ClockSkewTooLarge(600))));
    assert_eq!(cfg.security_config().clock_skew_seconds, MAX_CLOCK_SKEW_SECONDS);
    cfg.clock_skew_seconds = 30;
    assert_eq!(cfg.effective_clock_skew(), 30);
}

#[test]
fn test_signature_service_flag() {
    let cfg = SwedenConnectConfig::signature_service("https://sign.example.se", vec![constants::LOA3.into()]);
    assert!(cfg.is_signature_service());
    let idp = SwedenConnectConfig::identity_provider("https://idp.example.se", vec![]);
    assert_eq!(idp.role, SwedenConnectRole::IdentityProvider);
    assert!(!idp.is_signature_service());
}

// ── error ────────────────────────────────────────────────────────────────────

#[test]
fn test_error_to_status() {
    let s = SwedenConnectError::NoRequestedLoa.to_status();
    assert_eq!(s.status_code.value, constants::STATUS_REQUESTER);
    assert!(s.status_code.sub_status.is_none());
    assert_eq!(s.status_message.as_deref(), Some("no requested Level of Assurance configured"));

    let s = SwedenConnectError::LevelOfAssuranceMismatch {
        received: constants::LOA2.to_string(),
        requested: vec![constants::LOA3.to_string()],
    }
    .to_status();
    assert_eq!(s.status_code.value, constants::STATUS_REQUESTER);
    assert_eq!(s.status_code.sub_status.as_ref().unwrap().value, constants::STATUS_NO_AUTHN_CONTEXT);
    assert_eq!(
        s.status_message.as_deref(),
        Some("delivered LoA \"http://id.elegnamnden.se/loa/1.0/loa2\" does not match any requested LoA [\"http://id.elegnamnden.se/loa/1.0/loa3\"]")
    );

    let s = SwedenConnectError::AssertionCount(2).to_status();
    assert_eq!(s.status_code.value, constants::STATUS_RESPONDER);
    assert_eq!(s.status_message.as_deref(), Some("expected exactly one assertion, found 2"));

    let s = SwedenConnectError::Profile(ProfileError::PartialLogout { success: 1, total: 12 }).to_status();
    assert_eq!(s.status_message.as_deref(), Some("profile error: partial logout: 1 of 12 participants logged out"));
}

// ── idp ──────────────────────────────────────────────────────────────────────

#[test]
fn test_status_builders() {
    assert_eq!(fraud_status().status_code.sub_status.unwrap().value, constants::STATUS_FRAUD);
    assert_eq!(possible_fraud_status().status_code.sub_status.unwrap().value, constants::STATUS_POSSIBLE_FRAUD);
    assert_eq!(no_authn_context_status().status_code.value, constants::STATUS_REQUESTER);
    let c = cancel_status();
    assert!(!c.is_success());
    assert_eq!(c.status_code.sub_status.as_ref().unwrap().value, constants::STATUS_CANCEL);
}

// ── sign_message ─────────────────────────────────────────────────────────────

#[test]
fn test_sign_message_cleartext() {
    let sm = SignMessage::cleartext(
        "Sign this contract",
        SignMessageMimeType::Text,
        true,
        Some("https://idp.example.se".to_string()),
    );
    let xml = sm.to_xml_string();
    assert!(xml.contains("csig:SignMessage"));
    assert!(xml.contains(constants::NS_DSS_EXT));
    assert!(xml.contains("DisplayEntity=\"https://idp.example.se\""));
    assert!(xml.contains("MimeType=\"text\""));
    assert!(xml.contains("MustShow=\"true\""));
    assert!(xml.contains("<csig:Message>"));
    // base64("Sign this contract")
    assert_eq!(sm.message_base64, "U2lnbiB0aGlzIGNvbnRyYWN0");
}

#[test]
fn test_sign_message_no_must_show() {
    let sm = SignMessage::cleartext("hi", SignMessageMimeType::Html, false, None);
    let xml = sm.to_xml_string();
    assert!(!xml.contains("MustShow"));
    assert!(!xml.contains("DisplayEntity"));
    assert!(xml.contains("MimeType=\"text/html\""));
}

#[test]
fn test_sign_message_exact_xml() {
    let sm = SignMessage::cleartext("hi", SignMessageMimeType::Markdown, false, None);
    assert_eq!(
        sm.to_xml_string(),
        "<csig:SignMessage xmlns:csig=\"http://id.elegnamnden.se/csig/1.1/dss-ext/ns\" MimeType=\"text/markdown\"><csig:Message>aGk=</csig:Message></csig:SignMessage>"
    );
}

#[test]
fn test_sign_message_encrypted_body_not_escaped() {
    let sm = SignMessage {
        display_entity: None,
        mime_type: Some(SignMessageMimeType::Text),
        must_show: true,
        message_base64: "<xenc:EncryptedData>cipher</xenc:EncryptedData>".to_string(),
        encrypted: true,
    };
    let xml = sm.to_xml_string();
    assert!(xml.contains("<csig:EncryptedMessage><xenc:EncryptedData>cipher</xenc:EncryptedData></csig:EncryptedMessage>"));
    assert!(!xml.contains("&lt;xenc:EncryptedData"));
}

#[test]
fn test_sad_request() {
    let sad = SadRequest::new("_sad1", "https://sp.example.se", "_signreq1", 1);
    let xml = sad.to_xml_string();
    assert!(xml.contains("sap:SADRequest"));
    assert!(xml.contains("ID=\"_sad1\""));
    assert!(xml.contains("<sap:RequesterID>https://sp.example.se</sap:RequesterID>"));
    assert!(xml.contains("<sap:SignRequestID>_signreq1</sap:SignRequestID>"));
    assert!(xml.contains("<sap:DocCount>1</sap:DocCount>"));
    assert!(xml.contains("<sap:RequestedVersion>1.0</sap:RequestedVersion>"));
    let big = SadRequest::new("_s", "r&d", "x", 4294967295);
    let xml = big.to_xml_string();
    assert!(xml.contains("<sap:DocCount>4294967295</sap:DocCount>"));
    assert!(xml.contains("<sap:RequesterID>r&amp;d</sap:RequesterID>"));
}

// ── principal selection ──────────────────────────────────────────────────────

#[test]
fn test_principal_selection_xml() {
    let ps = PrincipalSelection::new(vec![MatchValue::personal_identity_number("197001012380")]);
    let xml = ps.to_xml_string();
    assert!(xml.contains("psc:PrincipalSelection"));
    assert!(xml.contains(constants::NS_PSC));
    assert!(xml.contains(constants::ATTR_PERSONAL_IDENTITY_NUMBER));
    assert!(xml.contains("197001012380"));
    assert!(xml.contains("psc:MatchValue"));
}

#[test]
fn test_match_value_escaping() {
    let mv = MatchValue::new("a\"b", "x&y<z");
    let mut s = String::new();
    mv.write(&mut s);
    assert!(s.contains("Name=\"a&quot;b\""));
    assert!(s.contains(">x&amp;y&lt;z<"));
}

#[test]
fn test_match_value_country_exact() {
    let mut s = String::new();
    MatchValue::country("NO").write(&mut s);
    assert_eq!(
        s,
        "<psc:MatchValue Name=\"urn:oid:2.5.4.6\" NameFormat=\"urn:oasis:names:tc:SAML:2.0:attrname-format:uri\">NO</psc:MatchValue>"
    );
}

#[test]
fn test_requested_principal_selection_extensions() {
    let rps = RequestedPrincipalSelection {
        match_attributes: vec![(
            constants::ATTR_PERSONAL_IDENTITY_NUMBER.to_string(),
            Some(constants::ATTRNAME_FORMAT_URI.to_string()),
        )],
    };
    let ext = rps.to_extensions();
    assert!(ext.raw_xml.contains("md:Extensions"));
    assert!(ext.raw_xml.contains("RequestedPrincipalSelection"));
    assert!(ext.raw_xml.contains("<psc:MatchValue Name=\"urn:oid:1.2.752.29.4.13\" NameFormat=\"urn:oasis:names:tc:SAML:2.0:attrname-format:uri\"/>"));
}

// ── metadata ─────────────────────────────────────────────────────────────────

#[test]
fn test_entity_attributes_roundtrip() {
    let xml = entity_attributes_xml(&[constants::EC_LOA3_PNR, constants::ST_SIGSERVICE], &[constants::LOA3]);
    let ext = extensions(&[xml]);

    let cats = entity_categories(&ext);
    assert!(cats.iter().any(|c| c == constants::EC_LOA3_PNR));
    assert!(cats.iter().any(|c| c == constants::ST_SIGSERVICE));
    assert!(is_signature_service(&ext));

    let loas = assurance_certifications(&ext);
    assert_eq!(loas, vec![constants::LOA3.to_string()]);
}

#[test]
fn test_no_assurance_for_sp() {
    let xml = entity_attributes_xml(&[constants::EC_LOA3_PNR], &[]);
    assert!(!xml.contains("assurance-certification"));
    let ext = extensions(&[xml]);
    assert!(assurance_certifications(&ext).is_empty());
    assert!(!is_signature_service(&ext));
}

#[test]
fn test_entity_attribute_values_trim_and_unparseable() {
    let ext = Extensions::new(
        "<mdattr:EntityAttributes><saml2:Attribute Name=\"n\"><saml2:AttributeValue>  v1 </saml2:AttributeValue><saml2:AttributeValue> </saml2:AttributeValue></saml2:Attribute></mdattr:EntityAttributes>",
    );
    assert_eq!(entity_attribute_values(&ext, "n"), vec!["v1".to_string()]);
    assert!(entity_attribute_values(&ext, "other").is_empty());
    assert!(entity_attribute_values(&Extensions::new("<broken"), "n").is_empty());
}

#[test]
fn test_ui_info_xml() {
    let ui = UiInfo {
        display_names: vec![("sv".into(), "Min tjänst".into())],
        descriptions: vec![("sv".into(), "Beskrivning".into())],
        logos: vec![Logo { url: "https://sp.example.se/logo.svg".into(), height: 64, width: 64, lang: None }],
    };
    let xml = ui.to_xml_string();
    assert!(xml.contains("mdui:UIInfo"));
    assert!(xml.contains("xml:lang=\"sv\""));
    assert!(xml.contains("Min tjänst"));
    assert!(xml.contains("mdui:Logo"));
    assert!(xml.contains("height=\"64\""));
}

#[test]
fn test_scope_and_discovery() {
    assert!(scope_xml("2021006883", false).contains("regexp=\"false\""));
    assert!(scope_xml("2021006883", false).contains(">2021006883<"));
    let dr = discovery_response_xml(0, "https://sp.example.se/disco");
    assert!(dr.contains("idpdisc:DiscoveryResponse"));
    assert!(dr.contains("index=\"0\""));
    assert!(dr.contains("Location=\"https://sp.example.se/disco\""));
}

#[test]
fn test_supports_scal2() {
    let ext = extensions(&[entity_attributes_xml(&[constants::SPROP_SCAL2], &[])]);
    assert!(supports_scal2(&ext));
}

// ── request ──────────────────────────────────────────────────────────────────

use gamlastan::profiles::swedenconnect::request::{build_authn_request, request_extensions_xml, SwedenConnectAuthnOptions};
use gamlastan::profiles::sso::web_browser::BINDING_HTTP_POST;

fn sp_cfg() -> SwedenConnectConfig {
    SwedenConnectConfig::service_provider("https://sp.example.se", vec![constants::LOA3.into()])
}

#[test]
fn test_basic_request() {
    let cfg = sp_cfg();
    let opts = SwedenConnectAuthnOptions {
        acs_url: Some("https://sp.example.se/acs".into()),
        ..SwedenConnectAuthnOptions::to("https://idp.example.se/sso")
    };
    let built = build_authn_request(&cfg, &opts).unwrap();
    let req = &built.request;
    assert_eq!(req.base.issuer.as_ref().unwrap().value, "https://sp.example.se");
    assert_eq!(req.base.destination.as_deref(), Some("https://idp.example.se/sso"));
    assert_eq!(req.force_authn, Some(true));
    assert_eq!(req.assertion_consumer_service_url.as_deref(), Some("https://sp.example.se/acs"));
    assert_eq!(req.protocol_binding.as_deref(), Some(BINDING_HTTP_POST));
    assert_eq!(req.name_id_policy.as_ref().unwrap().format.as_deref(), Some(constants::NAMEID_PERSISTENT));
    let rac = req.requested_authn_context.as_ref().unwrap();
    assert_eq!(rac.comparison, AuthnContextComparison::Exact);
    assert_eq!(rac.authn_context_class_refs, vec![constants::LOA3.to_string()]);
    assert!(built.extensions_xml.is_none());
}

#[test]
fn test_acs_mutual_exclusion() {
    let cfg = sp_cfg();
    let opts = SwedenConnectAuthnOptions {
        acs_url: Some("https://sp.example.se/acs".into()),
        acs_index: Some(0),
        ..SwedenConnectAuthnOptions::to("https://idp.example.se/sso")
    };
    assert!(build_authn_request(&cfg, &opts).is_err());
}

#[test]
fn test_missing_destination() {
    let cfg = sp_cfg();
    let opts = SwedenConnectAuthnOptions::default();
    assert!(build_authn_request(&cfg, &opts).is_err());
    let blank = SwedenConnectAuthnOptions::to("  \t ");
    assert!(matches!(build_authn_request(&cfg, &blank), Err(SwedenConnectError::Other(_))));
}

#[test]
fn test_missing_sp_entity_id_is_profile_error() {
    let cfg = SwedenConnectConfig::service_provider("", vec![]);
    let opts = SwedenConnectAuthnOptions::to("https://idp.example.se/sso");
    assert!(matches!(build_authn_request(&cfg, &opts), Err(SwedenConnectError::Profile(ProfileError::MissingIssuer))));
}

#[test]
fn test_scoping_idp_list() {
    let cfg = sp_cfg();
    let opts = SwedenConnectAuthnOptions {
        scoping_idp_list: vec!["http://id.swedenconnect.se/eidas/1.0/proxy-service/no".to_string()],
        ..SwedenConnectAuthnOptions::to("https://connector.example.se/sso")
    };
    let built = build_authn_request(&cfg, &opts).unwrap();
    let scoping = built.request.scoping.as_ref().unwrap();
    assert_eq!(scoping.idp_list.len(), 1);
    assert!(scoping.idp_list[0].contains("proxy-service/no"));
}

#[test]
fn test_signature_service_extensions() {
    let cfg = SwedenConnectConfig::signature_service("https://sign.example.se", vec![constants::LOA3.into()]);
    let opts = SwedenConnectAuthnOptions {
        acs_url: Some("https://sign.example.se/acs".into()),
        force_authn: false,
        requester_ids: vec!["https://sp.example.se".into()],
        principal_selection: Some(PrincipalSelection::new(vec![MatchValue::personal_identity_number("197001012380")])),
        sign_message: Some(SignMessage::cleartext(
            "Please sign",
            SignMessageMimeType::Text,
            true,
            Some("https://idp.example.se".into()),
        )),
        sad_request: Some(SadRequest::new("_sad1", "https://sp.example.se", "_sr1", 1)),
        ..SwedenConnectAuthnOptions::to("https://idp.example.se/sso")
    };
    let built = build_authn_request(&cfg, &opts).unwrap();
    assert_eq!(built.request.force_authn, Some(true));
    let ext = built.extensions_xml.unwrap();
    assert!(ext.contains("saml2p:Extensions"));
    assert!(ext.contains("csig:SignMessage"));
    assert!(ext.contains("sap:SADRequest"));
    assert!(ext.contains("psc:PrincipalSelection"));
    let scoping = built.request.scoping.as_ref().unwrap();
    assert_eq!(scoping.requester_ids, vec!["https://sp.example.se".to_string()]);
}

#[test]
fn test_request_extensions_xml_exact() {
    assert!(request_extensions_xml(&[]).is_none());
    assert_eq!(
        request_extensions_xml(&["<a/>".to_string(), "<b/>".to_string()]).unwrap(),
        "<saml2p:Extensions xmlns:saml2p=\"urn:oasis:names:tc:SAML:2.0:protocol\"><a/><b/></saml2p:Extensions>"
    );
}

// ── response algorithms ──────────────────────────────────────────────────────

use gamlastan::profiles::swedenconnect::response::{validate_response_algorithms, NS_XMLENC};

#[test]
fn test_validate_response_algorithms_rejects_sha1_signature() {
    let xml = format!(
        r##"<saml2p:Response xmlns:saml2p="{p}" xmlns:ds="{ds}" ID="_r1" Version="2.0" IssueInstant="2024-01-01T00:00:00Z">
             <ds:Signature>
                 <ds:SignedInfo>
                     <ds:SignatureMethod Algorithm="http://www.w3.org/2000/09/xmldsig#rsa-sha1"/>
                     <ds:Reference URI="#_r1">
                         <ds:DigestMethod Algorithm="{sha256}"/>
                     </ds:Reference>
                 </ds:SignedInfo>
             </ds:Signature>
         </saml2p:Response>"##,
        p = constants::NS_SAML_PROTOCOL,
        ds = constants::NS_DS,
        sha256 = constants::DIGEST_SHA256,
    );
    assert!(matches!(
        validate_response_algorithms(&xml),
        Err(SwedenConnectError::DisallowedAlgorithm { kind: "signature", .. })
    ));
}

#[test]
fn test_validate_response_algorithms_rejects_disallowed_block_encryption() {
    let xml = format!(
        r##"<saml2p:Response xmlns:saml2p="{p}" xmlns:xenc="{xenc}" ID="_r1" Version="2.0" IssueInstant="2024-01-01T00:00:00Z">
             <xenc:EncryptedData>
                 <xenc:EncryptionMethod Algorithm="http://www.w3.org/2001/04/xmlenc#tripledes-cbc"/>
             </xenc:EncryptedData>
         </saml2p:Response>"##,
        p = constants::NS_SAML_PROTOCOL,
        xenc = NS_XMLENC,
    );
    assert!(matches!(
        validate_response_algorithms(&xml),
        Err(SwedenConnectError::DisallowedAlgorithm { kind: "block encryption", .. })
    ));
}

#[test]
fn test_validate_response_algorithms_allows_oaep_sha1_digest() {
    let xml = format!(
        r##"<saml2p:Response xmlns:saml2p="{p}" xmlns:ds="{ds}" xmlns:xenc="{xenc}" ID="_r1" Version="2.0" IssueInstant="2024-01-01T00:00:00Z">
             <xenc:EncryptedKey>
                 <xenc:EncryptionMethod Algorithm="{oaep}">
                     <ds:DigestMethod Algorithm="{sha1}"/>
                 </xenc:EncryptionMethod>
             </xenc:EncryptedKey>
             <xenc:EncryptedData>
                 <xenc:EncryptionMethod Algorithm="{aes}"/>
             </xenc:EncryptedData>
         </saml2p:Response>"##,
        p = constants::NS_SAML_PROTOCOL,
        ds = constants::NS_DS,
        xenc = NS_XMLENC,
        oaep = constants::KEYTRANSPORT_RSA_OAEP_MGF1P,
        sha1 = constants::DIGEST_SHA1,
        aes = constants::ENC_AES256_CBC,
    );
    assert!(validate_response_algorithms(&xml).is_ok());
}

#[test]
fn test_validate_response_algorithms_other_failures() {
    let sha1_outside_key = format!(
        r#"<r xmlns:ds="{ds}"><ds:DigestMethod Algorithm="{sha1}"/></r>"#,
        ds = constants::NS_DS,
        sha1 = constants::DIGEST_SHA1
    );
    match validate_response_algorithms(&sha1_outside_key) {
        Err(SwedenConnectError::DisallowedAlgorithm { kind, uri }) => {
            assert_eq!(kind, "digest");
            assert_eq!(uri, constants::DIGEST_SHA1);
        }
        _ => panic!("expected a disallowed digest"),
    }
    let missing = format!(r#"<r xmlns:ds="{ds}"><ds:SignatureMethod/></r>"#, ds = constants::NS_DS);
    assert!(matches!(validate_response_algorithms(&missing), Err(SwedenConnectError::Other(m)) if m == "SignatureMethod is missing Algorithm"));
    assert!(matches!(validate_response_algorithms("<r"), Err(SwedenConnectError::Xml(_))));
}

use gamlastan::profiles::sso::web_browser::ResponseOptions;
use gamlastan::profiles::swedenconnect::idp::{create_response as create_sc_response, error_response};
use gamlastan::protocol::NameId;

fn sc_idp_cfg() -> SwedenConnectConfig {
    SwedenConnectConfig::identity_provider("https://idp.example.se", vec![constants::LOA3.into()])
}

fn sc_response_options() -> ResponseOptions {
    ResponseOptions {
        idp_entity_id: "https://idp.example.se".to_string(),
        in_response_to: Some("_req1".to_string()),
        sp_entity_id: "https://sp.example.se".to_string(),
        acs_url: "https://sp.example.se/acs".to_string(),
        assertion_lifetime_seconds: 300,
        session_index: Some("_sess1".to_string()),
        session_not_on_or_after: None,
        authn_context_class_ref: None,
        client_address: None,
        attributes: vec![],
    }
}

fn sc_name_id() -> NameId {
    NameId {
        value: "persistent-abc".to_string(),
        format: Some(constants::NAMEID_PERSISTENT.to_string()),
        name_qualifier: None,
        sp_name_qualifier: None,
        sp_provided_id: None,
    }
}

#[test]
fn test_create_response_fills_loa_and_attr_statement() {
    let now: i128 = secs(1_700_000_000);
    let resp = create_sc_response(&sc_idp_cfg(), &sc_response_options(), &sc_name_id(), now);
    let assertion = &resp.assertions[0];
    assert_eq!(assertion.attribute_statements.len(), 1);
    assert_eq!(assertion.authn_statements[0].authn_context.authn_context_class_ref.as_deref(), Some(constants::LOA3));
}

#[test]
fn test_create_response_keeps_given_loa() {
    let now: i128 = secs(1_700_000_000);
    let mut options = sc_response_options();
    options.authn_context_class_ref = Some(constants::LOA2.to_string());
    let resp = create_sc_response(&sc_idp_cfg(), &options, &sc_name_id(), now);
    assert_eq!(
        resp.assertions[0].authn_statements[0].authn_context.authn_context_class_ref.as_deref(),
        Some(constants::LOA2)
    );
}

#[test]
fn test_error_response_has_no_assertions() {
    let now: i128 = secs(1_700_000_000);
    let resp = error_response(&sc_idp_cfg(), Some("_req1"), "https://sp.example.se/acs", cancel_status(), now);
    assert!(resp.assertions.is_empty());
    assert!(resp.encrypted_assertions.is_empty());
    assert!(!resp.base.status.is_success());
    assert_eq!(resp.base.status.status_code.sub_status.as_ref().unwrap().value, constants::STATUS_CANCEL);
}

#[test]
fn sad_request_attributes_are_escaped_by_the_xml_writer() {
    // The writer escapes `>` and quotes in attribute values and keeps `>` in
    // text content escaped too.
    let sad = SadRequest::new("_a>\"b", "x>y", "_sr", 2);
    let xml = sad.to_xml_string();
    assert!(xml.contains(r#"ID="_a&gt;&quot;b""#), "{xml}");
    assert!(xml.contains("<sap:RequesterID>x&gt;y</sap:RequesterID>"), "{xml}");
    assert!(xml.contains("<sap:DocCount>2</sap:DocCount>"), "{xml}");
}

#[test]
fn profile_errors_convert_into_sweden_connect_errors() {
    let e: SwedenConnectError = ProfileError::NoAssertions.into();
    assert!(matches!(e, SwedenConnectError::Profile(ProfileError::NoAssertions)));
    assert_eq!(e.message(), "profile error: no assertions found in response");
}

fn secs(s: i64) -> i128 {
    s as i128 * 1_000_000_000
}
