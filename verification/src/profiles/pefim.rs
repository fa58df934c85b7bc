//! The PEFIM `SPCertEnc` extension: the SP puts a per-request encryption
//! certificate in its `AuthnRequest`'s extensions
//! (`pefim:SPCertEnc/ds:KeyInfo/ds:X509Data/ds:X509Certificate`), and the IdP
//! encrypts the assertion to that certificate instead of the metadata key.

use vstd::prelude::*;
use crate::encoding::{
    base64_standard_decode, base64_standard_decode_error, base64_standard_decoding, base64_standard_error_text,
};
use crate::metadata::types::md_extensions::is_element;
use crate::metadata::types::key_descriptor::collect_deep_text;
use crate::profiles::error::ProfileError;
use crate::text::{
    chars_of, decimal_string, decimal_text, lemma_strings_view_push, push_str, remove_whitespace, strip_ws,
    string_of, strings_view, strs_view, to_owned_string, trim, trim_chars,
};
use crate::xml::{
    element_is, node_deep_text, parse_xml, parsed_document_element, xml_parse_error, xml_parse_error_message,
    XmlNode,
};

verus! {

/// The PEFIM assertion namespace (`pefim:SPCertEnc`).
pub const PEFIM_NS: &'static str = "urn:net:eustix:names:tc:PEFIM:0.0:assertion";

/// The SAML protocol namespace.
pub const SAMLP_NS: &'static str = "urn:oasis:names:tc:SAML:2.0:protocol";

/// The XML-DSig namespace.
pub const DSIG_NS: &'static str = "http://www.w3.org/2000/09/xmldsig#";

/// One `pefim:SPCertEnc` element for the certificate `cert` (whitespace
/// removed), with `VerifyDepth` when given.
pub open spec fn sp_cert_enc_text(cert: Seq<char>, verify_depth: Option<u8>) -> Seq<char> {
    "<pefim:SPCertEnc xmlns:pefim=\""@ + PEFIM_NS@ + "\""@ + match verify_depth {
        Some(d) => " VerifyDepth=\""@ + decimal_text(d as nat) + "\""@,
        None => Seq::empty(),
    } + "><ds:KeyInfo xmlns:ds=\""@ + DSIG_NS@ + "\"><ds:X509Data><ds:X509Certificate>"@ + strip_ws(cert)
        + "</ds:X509Certificate></ds:X509Data></ds:KeyInfo></pefim:SPCertEnc>"@
}

/// The `pefim:SPCertEnc` elements for the certificates, in order.
pub open spec fn sp_cert_encs_text(certs: Seq<Seq<char>>, verify_depth: Option<u8>) -> Seq<char>
    decreases certs.len(),
{
    if certs.len() == 0 {
        Seq::empty()
    } else {
        sp_cert_encs_text(certs.drop_last(), verify_depth) + sp_cert_enc_text(certs.last(), verify_depth)
    }
}

/// The self-contained `samlp:Extensions` element carrying one
/// `pefim:SPCertEnc` per certificate.
pub open spec fn sp_cert_enc_extensions_text(certs: Seq<Seq<char>>, verify_depth: Option<u8>) -> Seq<char> {
    "<samlp:Extensions xmlns:samlp=\""@ + SAMLP_NS@ + "\">"@ + sp_cert_encs_text(certs, verify_depth)
        + "</samlp:Extensions>"@
}

/// Builds a `samlp:Extensions` element carrying one `pefim:SPCertEnc` per
/// base64 DER certificate (whitespace removed; PEM bodies without their
/// armour lines are accepted), each with the `VerifyDepth` hint when given.
pub fn sp_cert_enc_extensions_xml(certs_b64: &[&str], verify_depth: Option<u8>) -> (r: String)
    ensures
        r@ == sp_cert_enc_extensions_text(strs_view(certs_b64@), verify_depth),
{
    let mut xml = to_owned_string("<samlp:Extensions xmlns:samlp=\"");
    push_str(&mut xml, SAMLP_NS);
    push_str(&mut xml, "\">");
    let ghost start = xml@;
    let mut i: usize = 0;
    while i < certs_b64.len()
        invariant
            0 <= i <= certs_b64.len(),
            xml@ == start + sp_cert_encs_text(strs_view(certs_b64@).take(i as int), verify_depth),
        decreases certs_b64.len() - i,
    {
        assert(strs_view(certs_b64@).take(i + 1).drop_last() =~= strs_view(certs_b64@).take(i as int));
        let cs = chars_of(certs_b64[i]);
        let normalized = string_of(remove_whitespace(cs.as_slice()).as_slice());
        push_str(&mut xml, "<pefim:SPCertEnc xmlns:pefim=\"");
        push_str(&mut xml, PEFIM_NS);
        push_str(&mut xml, "\"");
        match verify_depth {
            Some(d) => {
                push_str(&mut xml, " VerifyDepth=\"");
                let ds = decimal_string(d as usize);
                push_str(&mut xml, ds.as_str());
                push_str(&mut xml, "\"");
            },
            None => {},
        }
        push_str(&mut xml, "><ds:KeyInfo xmlns:ds=\"");
        push_str(&mut xml, DSIG_NS);
        push_str(&mut xml, "\"><ds:X509Data><ds:X509Certificate>");
        push_str(&mut xml, normalized.as_str());
        push_str(&mut xml, "</ds:X509Certificate></ds:X509Data></ds:KeyInfo></pefim:SPCertEnc>");
        proof {
            assert(xml@ =~= start + sp_cert_encs_text(strs_view(certs_b64@).take(i + 1), verify_depth));
        }
        i = i + 1;
    }
    assert(strs_view(certs_b64@).take(i as int) =~= strs_view(certs_b64@));
    push_str(&mut xml, "</samlp:Extensions>");
    xml
}

/// The certificates found under the node `n`: outside an `SPCertEnc`
/// (`inside` false) the tree is searched for `pefim:SPCertEnc` elements;
/// inside one, each `ds:X509Certificate`'s text with whitespace removed is
/// taken when not empty.
pub open spec fn sp_cert_node(n: XmlNode, inside: bool) -> Seq<Seq<char>>
    decreases n,
{
    match n {
        XmlNode::Element(e) => if !inside {
            sp_cert_children(e.children@, is_element(e, PEFIM_NS@, "SPCertEnc"@))
        } else if is_element(e, DSIG_NS@, "X509Certificate"@) {
            let t = strip_ws(node_deep_text(n));
            if t.len() > 0 {
                seq![t]
            } else {
                Seq::empty()
            }
        } else {
            sp_cert_children(e.children@, true)
        },
        _ => Seq::empty(),
    }
}

/// The certificates found under the siblings `cs`, in order.
pub open spec fn sp_cert_children(cs: Seq<XmlNode>, inside: bool) -> Seq<Seq<char>>
    decreases cs,
{
    if cs.len() == 0 {
        Seq::empty()
    } else {
        sp_cert_children(cs.drop_last(), inside) + sp_cert_node(cs.last(), inside)
    }
}

/// The opening of the wrapper that declares the conventional prefixes.
pub const EXTENSIONS_WRAP_OPEN: &'static str = "<w xmlns:samlp=\"urn:oasis:names:tc:SAML:2.0:protocol\" xmlns:pefim=\"urn:net:eustix:names:tc:PEFIM:0.0:assertion\" xmlns:ds=\"http://www.w3.org/2000/09/xmldsig#\" xmlns:saml=\"urn:oasis:names:tc:SAML:2.0:assertion\">";

/// The outcome of extracting the certificates from `x`: nothing for blank
/// input; else `x` is parsed inside a wrapper declaring the conventional
/// prefixes, and the certificates under the wrapper's children are listed.
pub open spec fn encryption_certs_of(x: Seq<char>) -> Result<Seq<Seq<char>>, Seq<char>> {
    if trim(x).len() == 0 {
        Ok(Seq::empty())
    } else {
        let wrapped = EXTENSIONS_WRAP_OPEN@ + x + "</w>"@;
        match parsed_document_element(wrapped) {
            Some(root) => Ok(sp_cert_children(root.children@, false)),
            None => match xml_parse_error_message(wrapped) {
                Some(m) => Err("cannot parse Extensions XML: "@ + m),
                None => Err("empty Extensions XML"@),
            },
        }
    }
}

/// Appends the certificates found under `n` to `out`.
pub fn collect_sp_cert_enc(n: &XmlNode, inside: bool, out: &mut Vec<String>)
    ensures
        strings_view(final(out)@) == strings_view(old(out)@) + sp_cert_node(*n, inside),
    decreases n,
{
    match n {
        XmlNode::Element(e) => {
            let certificate = inside && element_is(e, DSIG_NS, "X509Certificate");
            if certificate {
                let mut deep: Vec<char> = Vec::new();
                collect_deep_text(n, &mut deep);
                assert(deep@ =~= node_deep_text(*n));
                let t = remove_whitespace(deep.as_slice());
                if t.len() > 0 {
                    let s = string_of(t.as_slice());
                    proof {
                        lemma_strings_view_push(out@, s);
                    }
                    out.push(s);
                } else {
                    assert(strings_view(out@) =~= strings_view(out@) + Seq::<Seq<char>>::empty());
                }
                return;
            }
            let child_inside = inside || element_is(e, PEFIM_NS, "SPCertEnc");
            let ghost start = strings_view(out@);
            let mut i: usize = 0;
            while i < e.children.len()
                invariant
                    *n == XmlNode::Element(*e),
                    0 <= i <= e.children.len(),
                    strings_view(out@) == start + sp_cert_children(e.children@.subrange(0, i as int), child_inside),
                decreases e.children.len() - i,
            {
                assert(e.children@.subrange(0, i + 1).drop_last() =~= e.children@.subrange(0, i as int));
                proof {
                    assert(decreases_to!(*n => (*n)->Element_0));
                    assert((*n)->Element_0 == *e);
                    assert(decreases_to!(*e => e.children));
                    assert(decreases_to!(e.children => e.children@));
                    assert(decreases_to!(e.children@ => e.children@[i as int]));
                }
                collect_sp_cert_enc(&e.children[i], child_inside, out);
                assert(strings_view(out@) =~= start + sp_cert_children(e.children@.subrange(0, i + 1), child_inside));
                i = i + 1;
            }
            assert(e.children@.subrange(0, i as int) =~= e.children@);
        },
        _ => {
            assert(strings_view(out@) =~= strings_view(out@) + Seq::<Seq<char>>::empty());
        },
    }
}

/// Extracts the base64 DER certificates of the `pefim:SPCertEnc` elements in
/// raw `samlp:Extensions` XML. The fragment is parsed with the `samlp`,
/// `pefim`, `ds` and `saml` prefixes declared around it, so a fragment that
/// relies on prefixes declared by an ancestor still parses.
pub fn extract_encryption_certs(extensions_xml: &str) -> (r: Result<Vec<String>, ProfileError>)
    ensures
        match encryption_certs_of(extensions_xml@) {
            Ok(certs) => r matches Ok(v) && strings_view(v@) == certs,
            Err(m) => r matches Err(ProfileError::Other(e)) && e@ == m,
        },
{
    let cs = chars_of(extensions_xml);
    if trim_chars(cs.as_slice()).len() == 0 {
        let none: Vec<String> = Vec::new();
        assert(strings_view(none@) =~= Seq::<Seq<char>>::empty());
        return Ok(none);
    }
    let mut wrapped = to_owned_string(EXTENSIONS_WRAP_OPEN);
    push_str(&mut wrapped, extensions_xml);
    push_str(&mut wrapped, "</w>");
    let root = match parse_xml(wrapped.as_str()) {
        Some(root) => root,
        None => {
            return match xml_parse_error(wrapped.as_str()) {
                Some(e) => {
                    let mut m = to_owned_string("cannot parse Extensions XML: ");
                    push_str(&mut m, e.as_str());
                    Err(ProfileError::Other(m))
                },
                None => Err(ProfileError::Other(to_owned_string("empty Extensions XML"))),
            };
        },
    };
    let mut certs: Vec<String> = Vec::new();
    let mut i: usize = 0;
    assert(strings_view(certs@) =~= Seq::<Seq<char>>::empty());
    while i < root.children.len()
        invariant
            0 <= i <= root.children.len(),
            strings_view(certs@) == sp_cert_children(root.children@.subrange(0, i as int), false),
        decreases root.children.len() - i,
    {
        assert(root.children@.subrange(0, i + 1).drop_last() =~= root.children@.subrange(0, i as int));
        collect_sp_cert_enc(&root.children[i], false, &mut certs);
        assert(strings_view(certs@) =~= sp_cert_children(root.children@.subrange(0, i + 1), false));
        i = i + 1;
    }
    assert(root.children@.subrange(0, i as int) =~= root.children@);
    Ok(certs)
}

/// The outcome of decoding the first certificate of `x`.
pub open spec fn first_cert_der_of(x: Seq<char>) -> Result<Option<Seq<u8>>, Seq<char>> {
    match encryption_certs_of(x) {
        Err(m) => Err(m),
        Ok(certs) => if certs.len() == 0 {
            Ok(None)
        } else {
            match base64_standard_decoding(certs[0]) {
                Some(b) => Ok(Some(b)),
                None => Err("invalid SPCertEnc base64: "@ + base64_standard_error_text(certs[0])),
            }
        },
    }
}

/// The first `SPCertEnc` certificate, decoded to DER bytes, or `None` when
/// the extensions carry none.
pub fn first_encryption_cert_der(extensions_xml: &str) -> (r: Result<Option<Vec<u8>>, ProfileError>)
    ensures
        match first_cert_der_of(extensions_xml@) {
            Ok(None) => r matches Ok(None),
            Ok(Some(b)) => r matches Ok(Some(v)) && v@ == b,
            Err(m) => r matches Err(ProfileError::Other(e)) && e@ == m,
        },
{
    let certs = extract_encryption_certs(extensions_xml)?;
    if certs.len() == 0 {
        return Ok(None);
    }
    let first = &certs[0];
    assert(strings_view(certs@)[0] == first@);
    match base64_standard_decode(first.as_str()) {
        Some(der) => Ok(Some(der)),
        None => {
            let mut m = to_owned_string("invalid SPCertEnc base64: ");
            match base64_standard_decode_error(first.as_str()) {
                Some(e) => push_str(&mut m, e.as_str()),
                None => {},
            }
            Err(ProfileError::Other(m))
        },
    }
}

} // verus!
