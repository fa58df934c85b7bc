use gamlastan::metadata::types::md_extensions::{MdExtensions, UiInfo};
use gamlastan::metadata::types::extensions::Extensions;

const SWAMID_SP_EXT: &str = r#"
    <mdrpi:RegistrationInfo xmlns:mdrpi="urn:oasis:names:tc:SAML:metadata:rpi"
        registrationAuthority="http://www.swamid.se/" registrationInstant="2020-01-01T00:00:00Z">
      <mdrpi:RegistrationPolicy xml:lang="en">https://www.swamid.se/</mdrpi:RegistrationPolicy>
    </mdrpi:RegistrationInfo>
    <mdattr:EntityAttributes xmlns:mdattr="urn:oasis:names:tc:SAML:metadata:attribute"
        xmlns:saml="urn:oasis:names:tc:SAML:2.0:assertion">
      <saml:Attribute NameFormat="urn:oasis:names:tc:SAML:2.0:attrname-format:uri"
          Name="http://macedir.org/entity-category">
        <saml:AttributeValue>http://refeds.org/category/research-and-scholarship</saml:AttributeValue>
        <saml:AttributeValue>https://refeds.org/category/code-of-conduct/v2</saml:AttributeValue>
      </saml:Attribute>
      <saml:Attribute Name="urn:oasis:names:tc:SAML:profiles:subject-id:req">
        <saml:AttributeValue>any</saml:AttributeValue>
      </saml:Attribute>
    </mdattr:EntityAttributes>
"#;

#[test]
fn test_registration_authority() {
    let ext = MdExtensions::parse(SWAMID_SP_EXT);
    assert_eq!(
        ext.registration_authority.as_deref(),
        Some("http://www.swamid.se/")
    );
}

#[test]
fn test_entity_categories_and_subject_id_req() {
    let ext = MdExtensions::parse(SWAMID_SP_EXT);
    let cats = ext.entity_categories();
    assert!(cats.contains(&"http://refeds.org/category/research-and-scholarship".to_string()));
    assert!(cats.contains(&"https://refeds.org/category/code-of-conduct/v2".to_string()));
    assert_eq!(
        ext.entity_attribute_values("urn:oasis:names:tc:SAML:profiles:subject-id:req"),
        vec!["any".to_string()]
    );
}

#[test]
fn test_empty_and_irrelevant_extensions() {
    assert_eq!(MdExtensions::parse(""), MdExtensions::default());
    assert_eq!(MdExtensions::parse("   "), MdExtensions::default());
    // An unrelated extension yields no signal, not an error.
    let ext = MdExtensions::parse(
        r#"<alg:SigningMethod xmlns:alg="urn:oasis:names:tc:SAML:metadata:algsupport"
            Algorithm="http://www.w3.org/2001/04/xmldsig-more#rsa-sha256"/>"#,
    );
    assert!(ext.registration_authority.is_none());
    assert!(ext.entity_categories().is_empty());
}

#[test]
fn test_stray_saml_attribute_outside_entity_attributes_is_ignored() {
    // A saml:Attribute that is NOT inside mdattr:EntityAttributes (here in
    // an unrelated requested-attributes fragment) must not be picked up as
    // an entity attribute.
    let ext = MdExtensions::parse(
        r#"
        <mdattr:EntityAttributes xmlns:mdattr="urn:oasis:names:tc:SAML:metadata:attribute"
            xmlns:saml="urn:oasis:names:tc:SAML:2.0:assertion">
          <saml:Attribute Name="http://macedir.org/entity-category">
            <saml:AttributeValue>http://refeds.org/category/research-and-scholarship</saml:AttributeValue>
          </saml:Attribute>
        </mdattr:EntityAttributes>
        <somens:Other xmlns:somens="urn:example:other"
            xmlns:saml="urn:oasis:names:tc:SAML:2.0:assertion">
          <saml:Attribute Name="urn:example:should-be-ignored">
            <saml:AttributeValue>nope</saml:AttributeValue>
          </saml:Attribute>
        </somens:Other>
        "#,
    );
    assert_eq!(ext.entity_attributes.len(), 1);
    assert_eq!(
        ext.entity_attributes[0].0,
        "http://macedir.org/entity-category"
    );
    assert!(ext
        .entity_attribute_values("urn:example:should-be-ignored")
        .is_empty());
}

#[test]
fn test_ui_info_parsing() {
    let ext = MdExtensions::parse(
        r#"
        <mdui:UIInfo xmlns:mdui="urn:oasis:names:tc:SAML:metadata:ui">
          <mdui:DisplayName xml:lang="en">Example Service</mdui:DisplayName>
          <mdui:DisplayName xml:lang="sv">Exempeltjänst</mdui:DisplayName>
          <mdui:Description xml:lang="en">An example.</mdui:Description>
          <mdui:InformationURL xml:lang="en">https://example.org/about</mdui:InformationURL>
          <mdui:PrivacyStatementURL xml:lang="en">https://example.org/privacy</mdui:PrivacyStatementURL>
          <mdui:Keywords xml:lang="en">login example</mdui:Keywords>
          <mdui:Logo width="80" height="60" xml:lang="en">https://example.org/logo.png</mdui:Logo>
        </mdui:UIInfo>
        "#,
    );
    let ui = ext.ui_info.expect("UIInfo present");
    assert_eq!(ui.display_names.len(), 2);
    assert_eq!(ui.display_names[0].lang.as_deref(), Some("en"));
    assert_eq!(ui.display_names[0].value, "Example Service");
    assert_eq!(ui.display_names[1].value, "Exempeltjänst");
    assert_eq!(ui.descriptions[0].value, "An example.");
    assert_eq!(ui.information_urls[0].value, "https://example.org/about");
    assert_eq!(
        ui.privacy_statement_urls[0].value,
        "https://example.org/privacy"
    );
    assert_eq!(ui.keywords[0].value, "login example");
    assert_eq!(ui.logos.len(), 1);
    assert_eq!(ui.logos[0].url, "https://example.org/logo.png");
    assert_eq!(ui.logos[0].width, Some(80));
    assert_eq!(ui.logos[0].height, Some(60));
    assert_eq!(ui.logos[0].lang.as_deref(), Some("en"));
}

#[test]
fn test_algorithm_support_parsing() {
    let ext = MdExtensions::parse(
        r#"
        <alg:SigningMethod xmlns:alg="urn:oasis:names:tc:SAML:metadata:algsupport"
            Algorithm="http://www.w3.org/2001/04/xmldsig-more#rsa-sha256"/>
        <alg:SigningMethod xmlns:alg="urn:oasis:names:tc:SAML:metadata:algsupport"
            Algorithm="http://www.w3.org/2001/04/xmldsig-more#rsa-sha512"/>
        <alg:DigestMethod xmlns:alg="urn:oasis:names:tc:SAML:metadata:algsupport"
            Algorithm="http://www.w3.org/2001/04/xmlenc#sha256"/>
        "#,
    );
    assert_eq!(
        ext.signing_methods,
        vec![
            "http://www.w3.org/2001/04/xmldsig-more#rsa-sha256".to_string(),
            "http://www.w3.org/2001/04/xmldsig-more#rsa-sha512".to_string(),
        ]
    );
    assert_eq!(
        ext.digest_methods,
        vec!["http://www.w3.org/2001/04/xmlenc#sha256".to_string()]
    );
    // supported_algorithms lists signing methods first, then digests.
    let all = ext.supported_algorithms();
    assert_eq!(all.len(), 3);
    assert!(all[0].contains("rsa-sha256"));
    assert!(all[2].contains("xmlenc#sha256"));
}

#[test]
fn test_ui_info_with_ancestor_declared_namespace() {
    // Role-level Extensions are captured as a raw fragment that uses the
    // mdui/alg prefixes declared on an ancestor (the EntityDescriptor) we did
    // not capture. The synthetic root must still resolve them.
    let ext = MdExtensions::parse(
        r#"
        <mdui:UIInfo>
          <mdui:DisplayName xml:lang="en">Example SP</mdui:DisplayName>
        </mdui:UIInfo>
        <alg:SigningMethod Algorithm="http://www.w3.org/2001/04/xmldsig-more#rsa-sha256"/>
        "#,
    );
    let ui = ext.ui_info.expect("UIInfo resolves without a local xmlns");
    assert_eq!(ui.display_names[0].value, "Example SP");
    assert_eq!(
        ext.signing_methods,
        vec!["http://www.w3.org/2001/04/xmldsig-more#rsa-sha256".to_string()]
    );
}

#[test]
fn test_ui_info_absent_yields_none() {
    assert!(MdExtensions::parse(SWAMID_SP_EXT).ui_info.is_none());
    assert!(MdExtensions::default().ui_info.is_none());
}

#[test]
fn test_malformed_extension_is_fail_soft() {
    // Not well-formed: returns the empty default rather than panicking.
    assert_eq!(
        MdExtensions::parse("<mdrpi:RegistrationInfo registrationAuthority=unquoted>"),
        MdExtensions::default()
    );
}


#[test]
fn test_from_extensions_and_ui_info_is_empty() {
    let ext = Extensions::new(SWAMID_SP_EXT);
    assert_eq!(MdExtensions::from_extensions(&ext), MdExtensions::parse(SWAMID_SP_EXT));
    assert!(UiInfo::default().is_empty());
    let ui = MdExtensions::parse(r#"<mdui:UIInfo><mdui:Logo width="x" height="+7">u</mdui:Logo></mdui:UIInfo>"#)
        .ui_info
        .unwrap();
    assert!(!ui.is_empty());
    assert_eq!(ui.logos[0].width, None);
    assert_eq!(ui.logos[0].height, Some(7));
}
