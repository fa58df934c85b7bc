use gamlastan::metadata::types::extensions::Extensions;
use gamlastan::metadata::types::spid::{
    SpidContactExtensions, SpidExtensionError, SpidSpType, SPID_EXTENSIONS_NS,
};

#[test]
fn test_sp_type_element_name_roundtrip() {
    let types = [
        SpidSpType::Public,
        SpidSpType::Private,
        SpidSpType::PublicServicesFullAggregator,
        SpidSpType::PublicServicesLightAggregator,
        SpidSpType::PrivateServicesFullAggregator,
        SpidSpType::PrivateServicesLightAggregator,
        SpidSpType::PublicServicesFullOperator,
        SpidSpType::PublicServicesLightOperator,
        SpidSpType::PublicOperator,
    ];
    for t in types {
        let name = t.element_name();
        let parsed = SpidSpType::from_element_name(name).unwrap();
        assert_eq!(t, parsed, "roundtrip failed for {name}");
    }
}

#[test]
fn test_sp_type_from_unknown() {
    assert_eq!(SpidSpType::from_element_name("Unknown"), None);
    assert_eq!(SpidSpType::from_element_name(""), None);
}

#[test]
fn test_public_sp_constructor() {
    let ext = SpidContactExtensions::public_sp("ABC123");
    assert_eq!(ext.sp_type, SpidSpType::Public);
    assert_eq!(ext.ipa_code.as_deref(), Some("ABC123"));
    assert!(ext.vat_number.is_none());
    assert!(ext.fiscal_code.is_none());
}

#[test]
fn test_private_sp_constructor() {
    let ext = SpidContactExtensions::private_sp("VATIT-12345", "ABCDEF80A01H501T");
    assert_eq!(ext.sp_type, SpidSpType::Private);
    assert_eq!(ext.vat_number.as_deref(), Some("VATIT-12345"));
    assert_eq!(ext.fiscal_code.as_deref(), Some("ABCDEF80A01H501T"));
    assert!(ext.ipa_code.is_none());
}

#[test]
fn test_to_extensions_public() {
    let ext = SpidContactExtensions {
        sp_type: SpidSpType::Public,
        vat_number: Some("VATIT-12345678901".into()),
        fiscal_code: Some("XYZABC80A01H501T".into()),
        ipa_code: None,
        municipality: None,
        province: None,
        country: None,
    };
    let extensions = ext.to_extensions();
    let xml = &extensions.raw_xml;
    assert!(xml.contains("<md:Extensions>"));
    assert!(xml.contains("</md:Extensions>"));
    assert!(xml.contains("spid:VATNumber"));
    assert!(xml.contains("VATIT-12345678901"));
    assert!(xml.contains("spid:FiscalCode"));
    assert!(xml.contains("XYZABC80A01H501T"));
    assert!(xml.contains("spid:Public"));
    assert!(xml.contains(SPID_EXTENSIONS_NS));
    assert!(!xml.contains("spid:Private"));
}

#[test]
fn test_to_extensions_private() {
    let ext = SpidContactExtensions::private_sp("VATIT-99999999999", "RSSMRA80A01H501Z");
    let extensions = ext.to_extensions();
    let xml = &extensions.raw_xml;
    assert!(xml.contains("spid:Private"));
    assert!(!xml.contains("spid:Public"));
    assert!(xml.contains("VATIT-99999999999"));
    assert!(xml.contains("RSSMRA80A01H501Z"));
}

#[test]
fn test_to_extensions_exact() {
    let ext = SpidContactExtensions::public_sp("A&B");
    assert_eq!(
        ext.to_extensions().raw_xml,
        "<md:Extensions><spid:IPACode xmlns:spid=\"https://spid.gov.it/saml-extensions\">A&amp;B</spid:IPACode><spid:Public xmlns:spid=\"https://spid.gov.it/saml-extensions\"/></md:Extensions>"
    );
}

#[test]
fn test_to_extensions_with_location() {
    let ext = SpidContactExtensions {
        sp_type: SpidSpType::Public,
        vat_number: None,
        fiscal_code: None,
        ipa_code: Some("IPA001".into()),
        municipality: Some("Roma".into()),
        province: Some("RM".into()),
        country: Some("IT".into()),
    };
    let extensions = ext.to_extensions();
    let xml = &extensions.raw_xml;
    assert!(xml.contains("spid:IPACode"));
    assert!(xml.contains("IPA001"));
    assert!(xml.contains("spid:Municipality"));
    assert!(xml.contains("Roma"));
    assert!(xml.contains("spid:Province"));
    assert!(xml.contains("RM"));
    assert!(xml.contains("spid:Country"));
    assert!(xml.contains("IT"));
}

#[test]
fn test_roundtrip_public_sp() {
    let original = SpidContactExtensions {
        sp_type: SpidSpType::Public,
        vat_number: Some("VATIT-12345678901".into()),
        fiscal_code: Some("XYZABC80A01H501T".into()),
        ipa_code: None,
        municipality: None,
        province: None,
        country: None,
    };
    let extensions = original.to_extensions();
    let parsed = SpidContactExtensions::from_extensions(&extensions)
        .expect("parse should succeed")
        .expect("should contain SPID extensions");
    assert_eq!(original, parsed);
}

#[test]
fn test_roundtrip_private_sp() {
    let original = SpidContactExtensions::private_sp("VATIT-99999999999", "RSSMRA80A01H501Z");
    let extensions = original.to_extensions();
    let parsed = SpidContactExtensions::from_extensions(&extensions)
        .expect("parse should succeed")
        .expect("should contain SPID extensions");
    assert_eq!(original, parsed);
}

#[test]
fn test_roundtrip_all_fields() {
    let original = SpidContactExtensions {
        sp_type: SpidSpType::PublicServicesFullAggregator,
        vat_number: Some("VATIT-11111111111".into()),
        fiscal_code: Some("ABCDEF01A01H501Z".into()),
        ipa_code: Some("IPA999".into()),
        municipality: Some("Milano".into()),
        province: Some("MI".into()),
        country: Some("IT".into()),
    };
    let extensions = original.to_extensions();
    let parsed = SpidContactExtensions::from_extensions(&extensions)
        .expect("parse should succeed")
        .expect("should contain SPID extensions");
    assert_eq!(original, parsed);
}

#[test]
fn test_from_non_spid_extensions() {
    let ext = Extensions::new("<SomeOtherExtension>value</SomeOtherExtension>");
    let result = SpidContactExtensions::from_extensions(&ext).unwrap();
    assert!(result.is_none(), "non-SPID extensions should return None");
}

#[test]
fn test_from_spid_without_sp_type() {
    let ext = Extensions::new(&format!(
        r#"<md:Extensions><spid:VATNumber xmlns:spid="{SPID_EXTENSIONS_NS}">VAT123</spid:VATNumber></md:Extensions>"#
    ));
    let result = SpidContactExtensions::from_extensions(&ext);
    assert!(matches!(result, Err(SpidExtensionError::MissingSpType)), "should fail without SP type marker");
}

#[test]
fn test_from_malformed_spid_extensions_is_parse_error() {
    let ext = Extensions::new("<spid:Public");
    assert!(matches!(SpidContactExtensions::from_extensions(&ext), Err(SpidExtensionError::ParseError(_))));
}

#[test]
fn test_error_display() {
    let e = SpidExtensionError::MissingSpType;
    let s = e.to_string();
    assert!(s.contains("missing SP type"));

    let e = SpidExtensionError::ParseError("bad xml".into());
    let s = e.to_string();
    assert!(s.contains("bad xml"));
}
