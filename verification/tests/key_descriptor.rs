use gamlastan::metadata::types::key_descriptor::{
    declares_foreign_namespace, EncryptionMethodRef, KeyDescriptor, KeyDescriptorRef, KeyUse,
};

#[test]
fn test_key_use_roundtrip() {
    assert_eq!("signing".parse::<KeyUse>().unwrap(), KeyUse::Signing);
    assert_eq!("encryption".parse::<KeyUse>().unwrap(), KeyUse::Encryption);
    assert!("other".parse::<KeyUse>().is_err());
}

#[test]
fn test_key_use_as_str() {
    assert_eq!(KeyUse::Signing.as_str(), "signing");
    assert_eq!(KeyUse::Encryption.as_str(), "encryption");
}

#[test]
fn test_key_descriptor_signing() {
    let kd = KeyDescriptor::signing("<ds:KeyInfo/>");
    assert!(kd.can_sign());
    assert!(!kd.can_encrypt());
}

#[test]
fn test_key_descriptor_encryption() {
    let kd = KeyDescriptor::encryption("<ds:KeyInfo/>");
    assert!(!kd.can_sign());
    assert!(kd.can_encrypt());
}

#[test]
fn test_key_descriptor_both() {
    let kd = KeyDescriptor::both("<ds:KeyInfo/>");
    assert!(kd.can_sign());
    assert!(kd.can_encrypt());
    assert!(kd.use_.is_none());
}

#[test]
fn test_x509_certificates_der_extraction() {
    // base64("hello") = "aGVsbG8="
    let kd = KeyDescriptor::signing(
        "<ds:KeyInfo xmlns:ds=\"http://www.w3.org/2000/09/xmldsig#\">\
         <ds:X509Data><ds:X509Certificate>aGVsbG8=</ds:X509Certificate></ds:X509Data>\
         </ds:KeyInfo>",
    );
    assert_eq!(kd.x509_certificates_der(), vec![b"hello".to_vec()]);
}

#[test]
fn test_x509_certificates_der_multiline_default_ns_and_empty() {
    let kd = KeyDescriptor::signing(
        "<KeyInfo><X509Data><X509Certificate>\n  aGVs\n  bG8=\n  </X509Certificate>\
         </X509Data></KeyInfo>",
    );
    assert_eq!(kd.x509_certificates_der(), vec![b"hello".to_vec()]);

    let none = KeyDescriptor::signing("<ds:KeyInfo><ds:KeyName>k</ds:KeyName></ds:KeyInfo>");
    assert!(none.x509_certificates_der().is_empty());
}

#[test]
fn test_x509_certificates_der_multiple_in_document_order() {
    let kd = KeyDescriptor::signing(
        "<ds:KeyInfo xmlns:ds=\"http://www.w3.org/2000/09/xmldsig#\">\
         <ds:X509Data><ds:X509Certificate>b25l</ds:X509Certificate>\
         <ds:X509Certificate>dHdv</ds:X509Certificate></ds:X509Data>\
         </ds:KeyInfo>",
    );
    assert_eq!(
        kd.x509_certificates_der(),
        vec![b"one".to_vec(), b"two".to_vec()]
    );
}

#[test]
fn test_x509_certificates_der_accepts_unpadded_base64() {
    let unpadded = KeyDescriptor::signing(
        "<ds:KeyInfo xmlns:ds=\"http://www.w3.org/2000/09/xmldsig#\">\
         <ds:X509Data><ds:X509Certificate>aGVsbG8</ds:X509Certificate>\
         </ds:X509Data></ds:KeyInfo>",
    );
    assert_eq!(unpadded.x509_certificates_der(), vec![b"hello".to_vec()]);
}

#[test]
fn test_x509_certificates_der_handles_deserialized_fragment_without_namespace() {
    let kd = KeyDescriptor::signing(
        "<ds:KeyInfo><ds:X509Data><ds:X509Certificate>aGVsbG8=</ds:X509Certificate></ds:X509Data></ds:KeyInfo>",
    );
    assert!(uppsala::parse(&kd.key_info_xml).is_err());
    assert_eq!(kd.x509_certificates_der(), vec![b"hello".to_vec()]);
}

#[test]
fn test_x509_certificates_der_rejects_foreign_namespace_lookalike() {
    let kd = KeyDescriptor::signing(
        "<ds:KeyInfo xmlns:ds=\"http://www.w3.org/2000/09/xmldsig#\" \
         xmlns:evil=\"urn:evil\">\
         <evil:X509Data><evil:X509Certificate>aGVsbG8=</evil:X509Certificate>\
         </evil:X509Data></ds:KeyInfo>",
    );
    assert!(
        kd.x509_certificates_der().is_empty(),
        "foreign-namespace X509Certificate must not be trusted"
    );
}

#[test]
fn test_x509_certificates_der_requires_x509data_ancestor() {
    let kd = KeyDescriptor::signing(
        "<ds:KeyInfo xmlns:ds=\"http://www.w3.org/2000/09/xmldsig#\">\
         <ds:X509Certificate>aGVsbG8=</ds:X509Certificate></ds:KeyInfo>",
    );
    assert!(
        kd.x509_certificates_der().is_empty(),
        "X509Certificate without X509Data ancestor must not be trusted"
    );
}

#[test]
fn test_x509_certificates_der_fragment_requires_x509data() {
    let kd = KeyDescriptor::signing(
        "<ds:KeyInfo><ds:X509Certificate>aGVsbG8=</ds:X509Certificate></ds:KeyInfo>",
    );
    assert!(uppsala::parse(&kd.key_info_xml).is_err());
    assert!(kd.x509_certificates_der().is_empty());
}

#[test]
fn test_x509_certificates_der_fragment_rejects_self_closing_x509data() {
    let kd = KeyDescriptor::signing(
        "<ds:KeyInfo>\
         <ds:X509Data/>\
         <ds:X509Certificate>aGVsbG8=</ds:X509Certificate></ds:KeyInfo>",
    );
    assert!(uppsala::parse(&kd.key_info_xml).is_err());
    assert!(
        kd.x509_certificates_der().is_empty(),
        "a cert after a self-closing X509Data must not be treated as enclosed"
    );

    let kd_spaced = KeyDescriptor::signing(
        "<ds:KeyInfo>\
         <ds:X509Data />\
         <ds:X509Certificate>aGVsbG8=</ds:X509Certificate></ds:KeyInfo>",
    );
    assert!(uppsala::parse(&kd_spaced.key_info_xml).is_err());
    assert!(kd_spaced.x509_certificates_der().is_empty());
}

#[test]
fn test_x509_certificates_der_fragment_rejects_inherited_foreign_prefix() {
    let kd = KeyDescriptor::signing(
        "<ds:KeyInfo>\
         <evil:X509Data><evil:X509Certificate>aGVsbG8=</evil:X509Certificate>\
         </evil:X509Data></ds:KeyInfo>",
    );
    assert!(uppsala::parse(&kd.key_info_xml).is_err());
    assert!(
        kd.x509_certificates_der().is_empty(),
        "a foreign inherited-prefix X509Certificate must not be trusted in the fragment path"
    );
}

#[test]
fn test_x509_certificates_der_fragment_rejects_inline_rebound_prefix() {
    let kd = KeyDescriptor::signing(
        "<ds:KeyInfo>\
         <ds:X509Data xmlns:ds=\"urn:evil\">\
         <ds:X509Certificate>aGVsbG8=</ds:X509Certificate></ds:X509Data></ds:KeyInfo>",
    );
    assert!(uppsala::parse(&kd.key_info_xml).is_err());
    assert!(
        kd.x509_certificates_der().is_empty(),
        "an inline-rebound foreign namespace must not be trusted in the fragment path"
    );
}

#[test]
fn test_x509_certificates_der_fragment_rejects_rebind_with_spaced_equals() {
    let kd = KeyDescriptor::signing(
        "<ds:KeyInfo>\
         <ds:X509Data xmlns:ds = \"urn:evil\">\
         <ds:X509Certificate>aGVsbG8=</ds:X509Certificate></ds:X509Data></ds:KeyInfo>",
    );
    assert!(uppsala::parse(&kd.key_info_xml).is_err());
    assert!(
        kd.x509_certificates_der().is_empty(),
        "a spaced-equals inline foreign-namespace rebinding must not be trusted"
    );

    let kd_default = KeyDescriptor::signing(
        "<KeyInfo>\
         <X509Data xmlns = 'urn:evil'>\
         <X509Certificate>aGVsbG8=</X509Certificate></X509Data></KeyInfo>",
    );
    assert!(kd_default.x509_certificates_der().is_empty());
}

#[test]
fn test_x509_certificates_der_fragment_rejects_empty_prefixed_namespace() {
    let kd = KeyDescriptor::signing(
        "<ds:KeyInfo>\
         <ds:X509Data xmlns:ds=\"\">\
         <ds:X509Certificate>aGVsbG8=</ds:X509Certificate></ds:X509Data></ds:KeyInfo>",
    );
    assert!(uppsala::parse(&kd.key_info_xml).is_err());
    assert!(
        kd.x509_certificates_der().is_empty(),
        "an empty-URI prefixed namespace rebinding must not be trusted"
    );

    assert!(!declares_foreign_namespace("X509Data xmlns=\"\""));
    assert!(declares_foreign_namespace("X509Data xmlns:ds=\"\""));
}

#[test]
fn test_x509_certificates_der_fragment_accepts_matching_prefix() {
    let kd = KeyDescriptor::signing(
        "<ds:KeyInfo><ds:X509Data>\
         <ds:X509Certificate>aGVsbG8=</ds:X509Certificate></ds:X509Data></ds:KeyInfo>",
    );
    assert!(uppsala::parse(&kd.key_info_xml).is_err());
    assert_eq!(kd.x509_certificates_der(), vec![b"hello".to_vec()]);
}

#[test]
fn test_x509_certificates_der_unparseable_keyinfo_is_empty() {
    let kd = KeyDescriptor::signing("<ds:KeyInfo><ds:X509Data>not closed");
    assert!(kd.x509_certificates_der().is_empty());
}

#[test]
fn test_key_descriptor_ref_to_owned() {
    let r = KeyDescriptorRef {
        use_: Some(KeyUse::Signing),
        key_info_xml: "<ds:KeyInfo><ds:X509Data/></ds:KeyInfo>",
        encryption_methods: vec![EncryptionMethodRef {
            algorithm: "http://www.w3.org/2009/xmlenc11#aes128-gcm",
            key_size: Some(128),
            oaep_params: None,
        }],
    };
    let o = r.to_owned();
    assert_eq!(o.use_, Some(KeyUse::Signing));
    assert_eq!(o.encryption_methods.len(), 1);
    assert_eq!(o.encryption_methods[0].key_size, Some(128));
}

#[test]
fn test_fragment_with_undecodable_certificate_is_skipped() {
    // "!!!" is not base64; the second certificate still comes through.
    let kd = KeyDescriptor::signing(
        "<ds:KeyInfo><ds:X509Data><ds:X509Certificate>!!!</ds:X509Certificate>\
         <ds:X509Certificate>b25l</ds:X509Certificate></ds:X509Data></ds:KeyInfo>",
    );
    assert_eq!(kd.x509_certificates_der(), vec![b"one".to_vec()]);
}

#[test]
fn test_tree_path_nested_x509data_unqualified_root() {
    // Parses standalone; the certificate sits two levels under X509Data.
    let kd = KeyDescriptor::both(
        "<KeyInfo xmlns=\"http://www.w3.org/2000/09/xmldsig#\"><X509Data><Wrapper>\
         <X509Certificate> dHdv </X509Certificate></Wrapper></X509Data></KeyInfo>",
    );
    assert_eq!(kd.x509_certificates_der(), vec![b"two".to_vec()]);
}
