use base64::Engine;
use gamlastan::profiles::error::ProfileError;
use gamlastan::profiles::pefim::{extract_encryption_certs, first_encryption_cert_der, sp_cert_enc_extensions_xml};

const CERT_B64: &str = "MIIBfakecertbase64dataAAAA";

#[test]
fn test_build_and_extract_roundtrip() {
    let xml = sp_cert_enc_extensions_xml(&[CERT_B64], Some(1));
    assert!(xml.contains("pefim:SPCertEnc"));
    assert!(xml.contains("VerifyDepth=\"1\""));

    let certs = extract_encryption_certs(&xml).unwrap();
    assert_eq!(certs, vec![CERT_B64.to_string()]);
}

#[test]
fn test_build_strips_whitespace() {
    let pem_body = "MIIBfake\ncertbase64\n dataAAAA";
    let xml = sp_cert_enc_extensions_xml(&[pem_body], None);
    let certs = extract_encryption_certs(&xml).unwrap();
    assert_eq!(certs, vec!["MIIBfakecertbase64dataAAAA".to_string()]);
}

#[test]
fn test_build_exact_text() {
    let xml = sp_cert_enc_extensions_xml(&["AB CD"], Some(12));
    assert_eq!(
        xml,
        "<samlp:Extensions xmlns:samlp=\"urn:oasis:names:tc:SAML:2.0:protocol\"><pefim:SPCertEnc xmlns:pefim=\"urn:net:eustix:names:tc:PEFIM:0.0:assertion\" VerifyDepth=\"12\"><ds:KeyInfo xmlns:ds=\"http://www.w3.org/2000/09/xmldsig#\"><ds:X509Data><ds:X509Certificate>ABCD</ds:X509Certificate></ds:X509Data></ds:KeyInfo></pefim:SPCertEnc></samlp:Extensions>"
    );
}

#[test]
fn test_extract_empty() {
    assert!(extract_encryption_certs("").unwrap().is_empty());
    assert!(extract_encryption_certs("<samlp:Extensions xmlns:samlp=\"urn:oasis:names:tc:SAML:2.0:protocol\"/>")
        .unwrap()
        .is_empty());
}

#[test]
fn test_extract_undeclared_prefixes() {
    let fragment = r#"<samlp:Extensions><pefim:SPCertEnc><ds:KeyInfo><ds:X509Data><ds:X509Certificate>AAAA</ds:X509Certificate></ds:X509Data></ds:KeyInfo></pefim:SPCertEnc></samlp:Extensions>"#;
    let certs = extract_encryption_certs(fragment).unwrap();
    assert_eq!(certs, vec!["AAAA".to_string()]);
}

#[test]
fn test_extract_ignores_certificates_outside_sp_cert_enc() {
    let fragment = r#"<samlp:Extensions><ds:X509Certificate>BBBB</ds:X509Certificate><pefim:SPCertEnc><ds:X509Certificate>AAAA</ds:X509Certificate></pefim:SPCertEnc></samlp:Extensions>"#;
    let certs = extract_encryption_certs(fragment).unwrap();
    assert_eq!(certs, vec!["AAAA".to_string()]);
}

#[test]
fn test_extract_malformed_errors() {
    match extract_encryption_certs("<samlp:Extensions>") {
        Err(ProfileError::Other(m)) => assert!(m.starts_with("cannot parse Extensions XML: ")),
        _ => panic!("expected a parse error"),
    }
}

#[test]
fn test_first_encryption_cert_der() {
    let der: &[u8] = b"fake-der-bytes";
    let b64 = base64::engine::general_purpose::STANDARD.encode(der);
    let xml = sp_cert_enc_extensions_xml(&[&b64], None);
    let extracted = first_encryption_cert_der(&xml).unwrap().unwrap();
    assert_eq!(extracted, der);

    assert!(first_encryption_cert_der("").unwrap().is_none());
}

#[test]
fn test_first_encryption_cert_der_invalid_base64() {
    let xml = sp_cert_enc_extensions_xml(&["not*base64"], None);
    match first_encryption_cert_der(&xml) {
        Err(ProfileError::Other(m)) => assert!(m.starts_with("invalid SPCertEnc base64: ")),
        _ => panic!("expected a decoding error"),
    }
}
