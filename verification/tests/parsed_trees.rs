use gamlastan::bindings::soap::SOAP11_NS;
use gamlastan::metadata::types::key_descriptor::{collect_tree_certificates, XMLDSIG_NS};
use gamlastan::metadata::types::md_extensions::{MdExtensions, MDRPI_NS};
use gamlastan::metadata::types::spid::{SpidContactExtensions, SpidExtensionError, SpidSpType, SPID_EXTENSIONS_NS};
use gamlastan::profiles::error::ProfileError;
use gamlastan::profiles::idp_discovery::{collect_discovery_responses, IDPDISC_NS};
use gamlastan::profiles::pefim::{collect_sp_cert_enc, DSIG_NS, PEFIM_NS};
use gamlastan::profiles::sso::ecp::{envelope_step, ParsedEcpEnvelope};
use gamlastan::profiles::sso::sp::response_signature_verified;
use gamlastan::profiles::swedenconnect::constants;
use gamlastan::profiles::swedenconnect::error::SwedenConnectError;
use gamlastan::profiles::swedenconnect::metadata::collect_attribute_values;
use gamlastan::profiles::swedenconnect::response::{validate_algorithms_recursive, AlgorithmContext};
use gamlastan::protocol::{Response, ResponseBase, SamlVersion, Status};
use gamlastan::xml::{XmlAttribute, XmlElement, XmlNode};

fn attr(name: &str, value: &str) -> XmlAttribute {
    XmlAttribute { namespace: None, local_name: name.to_string(), value: value.to_string() }
}

fn element(ns: &str, local: &str, attributes: Vec<XmlAttribute>, children: Vec<XmlNode>) -> XmlElement {
    XmlElement {
        namespace: Some(ns.to_string()),
        prefix: None,
        local_name: local.to_string(),
        attributes,
        children,
        source_end: None,
        markup: None,
    }
}

fn node(ns: &str, local: &str, attributes: Vec<XmlAttribute>, children: Vec<XmlNode>) -> XmlNode {
    XmlNode::Element(element(ns, local, attributes, children))
}

fn text(t: &str) -> XmlNode {
    XmlNode::Text(t.to_string())
}

#[test]
fn certificates_are_taken_only_inside_x509_data() {
    let tree = node(
        XMLDSIG_NS,
        "KeyInfo",
        vec![],
        vec![
            node(XMLDSIG_NS, "X509Certificate", vec![], vec![text("BAUG")]),
            node(XMLDSIG_NS, "X509Data", vec![], vec![node(XMLDSIG_NS, "X509Certificate", vec![], vec![text(" AQ\nID ")])]),
        ],
    );
    let mut out: Vec<Vec<u8>> = vec![vec![9]];
    collect_tree_certificates(&tree, false, &mut out);
    assert_eq!(out, vec![vec![9], vec![1, 2, 3]]);
}

#[test]
fn sp_certificates_are_read_under_sp_cert_enc() {
    let tree = node(
        "urn:example",
        "Extensions",
        vec![],
        vec![
            node(DSIG_NS, "X509Certificate", vec![], vec![text("OUTSIDE")]),
            node(
                PEFIM_NS,
                "SPCertEnc",
                vec![],
                vec![node(DSIG_NS, "KeyInfo", vec![], vec![node(DSIG_NS, "X509Certificate", vec![], vec![text(" MII A ")])])],
            ),
        ],
    );
    let mut out: Vec<String> = Vec::new();
    collect_sp_cert_enc(&tree, false, &mut out);
    assert_eq!(out, vec!["MIIA".to_string()]);
}

#[test]
fn discovery_responses_are_collected_in_document_order() {
    let tree = node(
        "urn:example",
        "Extensions",
        vec![],
        vec![
            node(IDPDISC_NS, "DiscoveryResponse", vec![attr("Location", "https://sp/a"), attr("index", "2")], vec![]),
            node(IDPDISC_NS, "DiscoveryResponse", vec![attr("index", "3")], vec![]),
            node(
                IDPDISC_NS,
                "DiscoveryResponse",
                vec![attr("Location", "https://sp/b"), attr("index", "x"), attr("isDefault", "1")],
                vec![],
            ),
        ],
    );
    let mut out = Vec::new();
    collect_discovery_responses(&tree, &mut out);
    let got: Vec<(String, u16, bool)> = out.into_iter().map(|e| (e.location, e.index, e.is_default)).collect();
    assert_eq!(got, vec![("https://sp/a".to_string(), 2, false), ("https://sp/b".to_string(), 0, true)]);
}

#[test]
fn attribute_values_are_collected_for_the_named_attribute() {
    let value = |t: &str| node(constants::NS_SAML_ASSERTION, "AttributeValue", vec![], vec![text(t)]);
    let tree = node(
        "urn:example",
        "EntityAttributes",
        vec![],
        vec![
            node(constants::NS_SAML_ASSERTION, "Attribute", vec![attr("Name", "wanted")], vec![value(" one "), value("  "), value("two")]),
            node(constants::NS_SAML_ASSERTION, "Attribute", vec![attr("Name", "other")], vec![value("three")]),
        ],
    );
    let mut out = vec!["zero".to_string()];
    collect_attribute_values(&tree, "wanted", &mut out);
    assert_eq!(out, vec!["zero".to_string(), "one".to_string(), "two".to_string()]);
}

#[test]
fn algorithm_walk_reports_the_first_disallowed_method() {
    let ctx = AlgorithmContext { in_encrypted_key: false, in_encrypted_data: false };
    let good = node(
        constants::NS_DS,
        "SignedInfo",
        vec![],
        vec![node(constants::NS_DS, "SignatureMethod", vec![attr("Algorithm", constants::SIG_RSA_SHA256)], vec![])],
    );
    assert!(validate_algorithms_recursive(&good, ctx).is_ok());
    let bad = node(
        constants::NS_DS,
        "SignedInfo",
        vec![],
        vec![
            node(constants::NS_DS, "SignatureMethod", vec![attr("Algorithm", "http://www.w3.org/2000/09/xmldsig#rsa-sha1")], vec![]),
            node(constants::NS_DS, "DigestMethod", vec![attr("Algorithm", constants::DIGEST_SHA1)], vec![]),
        ],
    );
    assert!(matches!(
        validate_algorithms_recursive(&bad, ctx),
        Err(SwedenConnectError::DisallowedAlgorithm { kind: "signature", .. })
    ));
}

#[test]
fn spid_fields_are_read_from_a_parsed_root() {
    let root = element(
        "urn:example",
        "root",
        vec![],
        vec![node(
            "urn:oasis:names:tc:SAML:2.0:metadata",
            "Extensions",
            vec![],
            vec![
                node(SPID_EXTENSIONS_NS, "IPACode", vec![], vec![text("c_h501")]),
                node(SPID_EXTENSIONS_NS, "Public", vec![], vec![]),
            ],
        )],
    );
    let ext = SpidContactExtensions::from_parsed_root(root).unwrap().unwrap();
    assert_eq!(ext.sp_type, SpidSpType::Public);
    assert_eq!(ext.ipa_code.as_deref(), Some("c_h501"));
    assert_eq!(ext.vat_number, None);

    let no_marker = element("urn:example", "root", vec![], vec![node(SPID_EXTENSIONS_NS, "VATNumber", vec![], vec![text("IT1")])]);
    assert!(matches!(SpidContactExtensions::from_parsed_root(no_marker), Err(SpidExtensionError::MissingSpType)));

    let nothing = element("urn:example", "root", vec![], vec![node("urn:example", "VATNumber", vec![], vec![text("IT1")])]);
    assert!(matches!(SpidContactExtensions::from_parsed_root(nothing), Ok(None)));
}

#[test]
fn md_extensions_are_read_from_a_parsed_root() {
    let root = element(
        "urn:example",
        "root",
        vec![],
        vec![node(MDRPI_NS, "RegistrationInfo", vec![attr("registrationAuthority", "https://fed.example")], vec![])],
    );
    let md = MdExtensions::from_parsed_root(root);
    assert_eq!(md.registration_authority.as_deref(), Some("https://fed.example"));
    assert!(md.entity_attributes.is_empty());
}

#[test]
fn envelope_body_keeps_the_single_element() {
    let mut saml = element("urn:oasis:names:tc:SAML:2.0:protocol", "AuthnRequest", vec![], vec![]);
    saml.markup = Some("<samlp:AuthnRequest/>".to_string());
    let body = node(SOAP11_NS, "Body", vec![], vec![text(" "), XmlNode::Element(saml)]);
    let p = match envelope_step(ParsedEcpEnvelope::empty(), &body) {
        Ok(p) => p,
        Err(e) => panic!("unexpected {e:?}"),
    };
    assert_eq!(p.body_xml, "<samlp:AuthnRequest/>");
    assert_eq!(p.bodies, 1);
    match envelope_step(p, &body) {
        Err(ProfileError::Other(m)) => assert_eq!(m, "SOAP Envelope must contain exactly one Body"),
        Err(e) => panic!("unexpected {e:?}"),
        Ok(_) => panic!("a second Body was accepted"),
    }
}

fn signed_response(id: &str, has_signature: bool) -> Response {
    Response {
        base: ResponseBase {
            id: id.to_string(),
            version: SamlVersion::V2_0,
            issue_instant: 0,
            destination: None,
            consent: None,
            issuer: None,
            has_signature,
            in_response_to: None,
            status: Status::success(),
        },
        assertions: vec![],
        encrypted_assertions: vec![],
    }
}

#[test]
fn response_signature_state_follows_the_verified_ids() {
    assert_eq!(response_signature_verified(&signed_response("_r1", false), &["_r1"]), None);
    assert_eq!(response_signature_verified(&signed_response("_r1", true), &[]), None);
    assert_eq!(response_signature_verified(&signed_response("_r1", true), &["_a1", "_r1"]), Some(true));
    assert_eq!(response_signature_verified(&signed_response("_r1", true), &["_a1"]), Some(false));
}
