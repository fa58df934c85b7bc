//! The IdP side of Web Browser SSO: reading an incoming `AuthnRequest`
//! (resolving and checking the ACS endpoint), the enveloped XML-DSig
//! template for a SAML `Response` or `Assertion`, and its placement after
//! the signed element's `<saml:Issuer>`.

use vstd::prelude::*;
use crate::metadata::types::endpoint::IndexedEndpoint;
use crate::metadata::types::md_extensions::SAML_ASSERTION_NS;
use crate::metadata::types::sp::SpSsoDescriptor;
use crate::profiles::error::ProfileError;
use crate::profiles::sso::sp::{find_default_acs_endpoint, first_default, is_first_lowest};
use crate::assertion::{
    duplicate_attributes, Attribute, AttributeStatement, AuthnContext, AuthnStatement, SubjectConfirmation,
    SubjectConfirmationData, CM_BEARER,
};
use crate::profiles::sso::web_browser::{same_attributes, ResponseOptions, ResponseTimes, BINDING_HTTP_POST};
use crate::protocol::{
    seconds_span, unsigned_seconds_to_nanos,
    generate_saml_id, is_entity_issuer, is_generated_id, opt_string_clone, status_is, Assertion, AudienceRestriction,
    AuthnContextComparison, AuthnRequest, Conditions, Issuer, NameId, NameIdOrEncryptedId, Response, ResponseBase,
    SamlVersion, Status, Subject, STATUS_SUCCESS,
};
use crate::text::{
    chars_of, decimal_string, decimal_text, opt_string_view, push_str, slice_chars, str_eq, string_of,
    strings_clone, strings_view, to_owned_string,
};
use crate::xml::{
    attribute_value, get_attribute, namespace_is, parse_xml, parsed_document_element,
    xml_parse_error, xml_parse_error_message, XmlElement, XmlNode,
};
use crate::markup::{escape_attr, escape_text, escaped_attr, escaped_text};

verus! {

/// The digest method of every reference in a signature template (SHA-256).
pub const DIGEST_METHOD_SHA256: &'static str = "http://www.w3.org/2001/04/xmlenc#sha256";

/// The enveloped-signature template for the element with ID `reference_id`,
/// signed with `sig_alg` and carrying the base64 certificate `cert`: the
/// attribute values escaped as attribute text, the certificate as element
/// text.
pub open spec fn signature_template_text(reference_id: Seq<char>, cert: Seq<char>, sig_alg: Seq<char>) -> Seq<char> {
    "<ds:Signature xmlns:ds=\"http://www.w3.org/2000/09/xmldsig#\"><ds:SignedInfo><ds:CanonicalizationMethod Algorithm=\"http://www.w3.org/2001/10/xml-exc-c14n#\"/><ds:SignatureMethod Algorithm=\""@
        + escaped_attr(sig_alg)
        + "\"/><ds:Reference URI=\"#"@
        + escaped_attr(reference_id)
        + "\"><ds:Transforms><ds:Transform Algorithm=\"http://www.w3.org/2000/09/xmldsig#enveloped-signature\"/><ds:Transform Algorithm=\"http://www.w3.org/2001/10/xml-exc-c14n#\"/></ds:Transforms><ds:DigestMethod Algorithm=\""@
        + DIGEST_METHOD_SHA256@
        + "\"/><ds:DigestValue/></ds:Reference></ds:SignedInfo><ds:SignatureValue/><ds:KeyInfo><ds:X509Data><ds:X509Certificate>"@
        + escaped_text(cert)
        + "</ds:X509Certificate></ds:X509Data></ds:KeyInfo></ds:Signature>"@
}

/// Builds the `<ds:Signature>` template that references `#reference_id`,
/// names `signature_method_uri` and embeds `cert_der_b64` in
/// `<ds:KeyInfo>`, with empty digest and signature values for the signer to
/// fill. Each caller-supplied value is entity-escaped for its context.
pub fn signature_template(reference_id: &str, cert_der_b64: &str, signature_method_uri: &str) -> (r: String)
    ensures
        r@ == signature_template_text(reference_id@, cert_der_b64@, signature_method_uri@),
{
    let mut out = to_owned_string(
        "<ds:Signature xmlns:ds=\"http://www.w3.org/2000/09/xmldsig#\"><ds:SignedInfo><ds:CanonicalizationMethod Algorithm=\"http://www.w3.org/2001/10/xml-exc-c14n#\"/><ds:SignatureMethod Algorithm=\"",
    );
    let alg = escape_attr(signature_method_uri);
    push_str(&mut out, alg.as_str());
    push_str(&mut out, "\"/><ds:Reference URI=\"#");
    let id = escape_attr(reference_id);
    push_str(&mut out, id.as_str());
    push_str(
        &mut out,
        "\"><ds:Transforms><ds:Transform Algorithm=\"http://www.w3.org/2000/09/xmldsig#enveloped-signature\"/><ds:Transform Algorithm=\"http://www.w3.org/2001/10/xml-exc-c14n#\"/></ds:Transforms><ds:DigestMethod Algorithm=\"",
    );
    push_str(&mut out, DIGEST_METHOD_SHA256);
    push_str(
        &mut out,
        "\"/><ds:DigestValue/></ds:Reference></ds:SignedInfo><ds:SignatureValue/><ds:KeyInfo><ds:X509Data><ds:X509Certificate>",
    );
    let cert = escape_text(cert_der_b64);
    push_str(&mut out, cert.as_str());
    push_str(&mut out, "</ds:X509Certificate></ds:X509Data></ds:KeyInfo></ds:Signature>");
    out
}

// ── Byte offsets into the UTF-8 text ───────────────────────────────────────

/// The number of bytes in the UTF-8 encoding of `c`.
pub open spec fn utf8_width(c: char) -> nat {
    let v = c as u32;
    if v < 0x80 {
        1
    } else if v < 0x800 {
        2
    } else if v < 0x10000 {
        3
    } else {
        4
    }
}

/// The number of bytes in the UTF-8 encoding of `cs`.
pub open spec fn utf8_len(cs: Seq<char>) -> nat
    decreases cs.len(),
{
    if cs.len() == 0 {
        0
    } else {
        utf8_len(cs.drop_last()) + utf8_width(cs.last())
    }
}

/// Whether byte offset `at` of the UTF-8 encoding of `s` falls right after
/// its first `k` characters.
pub open spec fn is_boundary_at(s: Seq<char>, at: nat, k: int) -> bool {
    0 <= k <= s.len() && utf8_len(s.take(k)) == at
}

/// `ins` inserted into `s` at byte offset `at` of its UTF-8 encoding, or
/// `None` when that offset is not a character boundary of `s`.
pub open spec fn splice_at_byte(s: Seq<char>, at: nat, ins: Seq<char>) -> Option<Seq<char>> {
    if exists|k: int| is_boundary_at(s, at, k) {
        let k = choose|k: int| is_boundary_at(s, at, k);
        Some(s.take(k) + ins + s.skip(k))
    } else {
        None
    }
}

/// A longer prefix has a longer UTF-8 encoding.
proof fn lemma_utf8_len_increasing(s: Seq<char>, j: int, k: int)
    requires
        0 <= j < k <= s.len(),
    ensures
        utf8_len(s.take(j)) < utf8_len(s.take(k)),
    decreases k - j,
{
    assert(s.take(k).drop_last() =~= s.take(k - 1));
    if j < k - 1 {
        lemma_utf8_len_increasing(s, j, k - 1);
    }
}

/// `char::len_utf8`.
fn utf8_width_of(c: char) -> (w: usize)
    ensures
        w == utf8_width(c),
{
    let v = c as u32;
    if v < 0x80 {
        1
    } else if v < 0x800 {
        2
    } else if v < 0x10000 {
        3
    } else {
        4
    }
}

/// Inserts `ins` into `s` at byte offset `at`, or returns `None` when `at`
/// is not a character boundary of `s` (where slicing would panic).
pub fn splice_at_byte_offset(s: &str, at: usize, ins: &str) -> (r: Option<String>)
    ensures
        match r {
            Some(o) => splice_at_byte(s@, at as nat, ins@) == Some(o@),
            None => splice_at_byte(s@, at as nat, ins@) is None,
        },
{
    let cs = chars_of(s);
    let mut i: usize = 0;
    let mut acc: usize = 0;
    while i < cs.len() && acc < at
        invariant
            i <= cs.len(),
            cs@ == s@,
            acc == utf8_len(cs@.take(i as int)),
            acc <= at,
        decreases cs.len() - i,
    {
        let w = utf8_width_of(cs[i]);
        assert(cs@.take(i + 1).drop_last() =~= cs@.take(i as int));
        if w > at - acc {
            proof {
                assert forall|k: int| !is_boundary_at(s@, at as nat, k) by {
                    if 0 <= k <= s@.len() {
                        if k < i {
                            lemma_utf8_len_increasing(s@, k, i as int);
                        } else if k > i + 1 {
                            lemma_utf8_len_increasing(s@, i + 1, k);
                        }
                    }
                }
            }
            return None;
        }
        acc = acc + w;
        i = i + 1;
    }
    if acc == at {
        proof {
            assert(is_boundary_at(s@, at as nat, i as int));
            let k = choose|k: int| is_boundary_at(s@, at as nat, k);
            if k < i {
                lemma_utf8_len_increasing(s@, k, i as int);
            } else if k > i {
                lemma_utf8_len_increasing(s@, i as int, k);
            }
            assert(k == i);
        }
        let head = slice_chars(&cs, 0, i);
        let tail = slice_chars(&cs, i, cs.len());
        let mut out = string_of(&head);
        push_str(&mut out, ins);
        let rest = string_of(&tail);
        push_str(&mut out, rest.as_str());
        assert(cs@.subrange(0, i as int) =~= s@.take(i as int));
        assert(cs@.subrange(i as int, cs@.len() as int) =~= s@.skip(i as int));
        Some(out)
    } else {
        proof {
            assert forall|k: int| !is_boundary_at(s@, at as nat, k) by {
                if 0 <= k < i {
                    lemma_utf8_len_increasing(s@, k, i as int);
                }
            }
        }
        None
    }
}

// ── Locating the signed element ─────────────────────────────────────────────

/// Whether `e` is `{ns}local` with `ID` attribute `id`.
pub open spec fn is_signing_target(e: XmlElement, ns: Seq<char>, local: Seq<char>, id: Seq<char>) -> bool {
    &&& namespace_is(e.namespace, ns)
    &&& e.local_name@ == local
    &&& attribute_value(e.attributes@, "ID"@) == Some(id)
}

/// The first element of the subtree `n`, in document order, that is
/// `{ns}local` with `ID` attribute `id`.
pub open spec fn target_in_node(n: XmlNode, ns: Seq<char>, local: Seq<char>, id: Seq<char>) -> Option<XmlElement>
    decreases n,
{
    match n {
        XmlNode::Element(e) => if is_signing_target(e, ns, local, id) {
            Some(e)
        } else {
            target_in_children(e.children@, ns, local, id)
        },
        _ => None,
    }
}

/// The first such element among the subtrees `cs`, in document order.
pub open spec fn target_in_children(cs: Seq<XmlNode>, ns: Seq<char>, local: Seq<char>, id: Seq<char>) -> Option<XmlElement>
    decreases cs,
{
    if cs.len() == 0 {
        None
    } else {
        match target_in_children(cs.drop_last(), ns, local, id) {
            Some(e) => Some(e),
            None => target_in_node(cs.last(), ns, local, id),
        }
    }
}

/// The first child element among `cs` that is `{ns}local`.
pub open spec fn first_child_element(cs: Seq<XmlNode>, ns: Seq<char>, local: Seq<char>) -> Option<XmlElement>
    decreases cs.len(),
{
    if cs.len() == 0 {
        None
    } else {
        match cs[0] {
            XmlNode::Element(c) => if namespace_is(c.namespace, ns) && c.local_name@ == local {
                Some(c)
            } else {
                first_child_element(cs.drop_first(), ns, local)
            },
            _ => first_child_element(cs.drop_first(), ns, local),
        }
    }
}

/// Finds the first element of the subtree `n`, in document order, that is
/// `{ns}local` with `ID` attribute `id`.
fn find_target<'a>(n: &'a XmlNode, ns: &str, local: &str, id: &str) -> (r: Option<&'a XmlElement>)
    ensures
        match r {
            Some(e) => target_in_node(*n, ns@, local@, id@) == Some(*e),
            None => target_in_node(*n, ns@, local@, id@) is None,
        },
    decreases n,
{
    match n {
        XmlNode::Element(e) => {
            let named = match &e.namespace {
                Some(u) => crate::text::str_eq(u.as_str(), ns) && crate::text::str_eq(e.local_name.as_str(), local),
                None => false,
            };
            if named {
                let v = get_attribute(e, "ID");
                let hit = match &v {
                    Some(x) => crate::text::str_eq(x.as_str(), id),
                    None => false,
                };
                if hit {
                    return Some(e);
                }
            }
            let mut i: usize = 0;
            while i < e.children.len()
                invariant
                    *n == XmlNode::Element(*e),
                    !is_signing_target(*e, ns@, local@, id@),
                    0 <= i <= e.children.len(),
                    target_in_children(e.children@.subrange(0, i as int), ns@, local@, id@) is None,
                decreases e.children.len() - i,
            {
                assert(e.children@.subrange(0, i + 1).drop_last() =~= e.children@.subrange(0, i as int));
                assert(e.children@.subrange(0, i + 1).last() == e.children@[i as int]);
                proof {
                    assert(decreases_to!(*n => (*n)->Element_0));
                    assert((*n)->Element_0 == *e);
                    assert(decreases_to!(*e => e.children));
                    assert(decreases_to!(e.children => e.children@));
                    assert(decreases_to!(e.children@ => e.children@[i as int]));
                }
                let found = find_target(&e.children[i], ns, local, id);
                if found.is_some() {
                    assert(e.children@.subrange(0, e.children.len() as int) =~= e.children@);
                    proof {
                        lemma_target_prefix(e.children@, i as int + 1, ns@, local@, id@);
                    }
                    return found;
                }
                i = i + 1;
            }
            assert(e.children@.subrange(0, i as int) =~= e.children@);
            None
        },
        _ => None,
    }
}

/// A match found in a prefix of the children is the match among all of them.
proof fn lemma_target_prefix(cs: Seq<XmlNode>, k: int, ns: Seq<char>, local: Seq<char>, id: Seq<char>)
    requires
        0 <= k <= cs.len(),
        target_in_children(cs.subrange(0, k), ns, local, id) is Some,
    ensures
        target_in_children(cs, ns, local, id) == target_in_children(cs.subrange(0, k), ns, local, id),
    decreases cs.len() - k,
{
    if k < cs.len() {
        assert(cs.subrange(0, k + 1).drop_last() =~= cs.subrange(0, k));
        lemma_target_prefix(cs, k + 1, ns, local, id);
    } else {
        assert(cs.subrange(0, k) =~= cs);
    }
}

/// Finds the first child element of `e` that is `{ns}local`.
pub(crate) fn find_first_child<'a>(e: &'a XmlElement, ns: &str, local: &str) -> (r: Option<&'a XmlElement>)
    ensures
        match r {
            Some(c) => first_child_element(e.children@, ns@, local@) == Some(*c),
            None => first_child_element(e.children@, ns@, local@) is None,
        },
{
    let mut i: usize = 0;
    assert(e.children@.skip(0) =~= e.children@);
    while i < e.children.len()
        invariant
            0 <= i <= e.children.len(),
            first_child_element(e.children@, ns@, local@) == first_child_element(e.children@.skip(i as int), ns@, local@),
        decreases e.children.len() - i,
    {
        assert(e.children@.skip(i as int).drop_first() =~= e.children@.skip(i + 1));
        assert(e.children@.skip(i as int)[0] == e.children@[i as int]);
        match &e.children[i] {
            XmlNode::Element(c) => {
                let named = match &c.namespace {
                    Some(u) => crate::text::str_eq(u.as_str(), ns) && crate::text::str_eq(c.local_name.as_str(), local),
                    None => false,
                };
                if named {
                    return Some(c);
                }
            },
            _ => {},
        }
        i = i + 1;
    }
    None
}

// ── Placing the signature ──────────────────────────────────────────────────

/// The message for a document with no element to sign.
pub open spec fn target_not_found_text(local: Seq<char>, id: Seq<char>) -> Seq<char> {
    "cannot find <"@ + local + "> with ID=\""@ + id + "\" to sign"@
}

/// The outcome of placing `tmpl` in `xml`: the text with `tmpl` inserted
/// right after the `<saml:Issuer>` child of the first `{ns}local` element
/// whose `ID` is `id`, or the message of the error raised instead.
pub open spec fn placed_signature(
    xml: Seq<char>,
    ns: Seq<char>,
    local: Seq<char>,
    id: Seq<char>,
    tmpl: Seq<char>,
) -> Result<Seq<char>, Seq<char>> {
    match parsed_document_element(xml) {
        None => match xml_parse_error_message(xml) {
            Some(m) => Err("cannot parse XML to place signature: "@ + m),
            None => Err(target_not_found_text(local, id)),
        },
        Some(root) => match target_in_node(XmlNode::Element(root), ns, local, id) {
            None => Err(target_not_found_text(local, id)),
            Some(e) => match first_child_element(e.children@, SAML_ASSERTION_NS@, "Issuer"@) {
                None => Err("<"@ + local + "> has no <saml:Issuer> to anchor the signature"@),
                Some(issuer) => match issuer.source_end {
                    None => Err("Issuer node has no source range"@),
                    Some(end) => match splice_at_byte(xml, end as nat, tmpl) {
                        None => Err("Issuer node has no source range"@),
                        Some(out) => Ok(out),
                    },
                },
            },
        },
    }
}

/// Inserts `sig_template` into `xml` right after the `<saml:Issuer>` of the
/// `{namespace_uri}local_name` element whose `ID` is `reference_id`, the
/// element being found by parsing, in document order, so that the splice
/// lands in the element the template's reference points at. Every failure
/// is a `ProfileError::Other` with the message `placed_signature` gives.
pub fn insert_signature_after_issuer(
    xml: &str,
    namespace_uri: &str,
    local_name: &str,
    reference_id: &str,
    sig_template: &str,
) -> (r: Result<String, ProfileError>)
    ensures
        match r {
            Ok(s) => placed_signature(xml@, namespace_uri@, local_name@, reference_id@, sig_template@) == Ok::<Seq<char>, Seq<char>>(s@),
            Err(ProfileError::Other(m)) => placed_signature(xml@, namespace_uri@, local_name@, reference_id@, sig_template@) == Err::<Seq<char>, Seq<char>>(m@),
            Err(_) => false,
        },
{
    let not_found = {
        let mut m = to_owned_string("cannot find <");
        push_str(&mut m, local_name);
        push_str(&mut m, "> with ID=\"");
        push_str(&mut m, reference_id);
        push_str(&mut m, "\" to sign");
        m
    };
    let root = match parse_xml(xml) {
        Some(root) => root,
        None => {
            return match xml_parse_error(xml) {
                Some(e) => {
                    let mut m = to_owned_string("cannot parse XML to place signature: ");
                    push_str(&mut m, e.as_str());
                    Err(ProfileError::Other(m))
                },
                None => Err(ProfileError::Other(not_found)),
            };
        },
    };
    let node = XmlNode::Element(root);
    let elem = match find_target(&node, namespace_uri, local_name, reference_id) {
        Some(e) => e,
        None => return Err(ProfileError::Other(not_found)),
    };
    let issuer = match find_first_child(elem, SAML_ASSERTION_NS, "Issuer") {
        Some(i) => i,
        None => {
            let mut m = to_owned_string("<");
            push_str(&mut m, local_name);
            push_str(&mut m, "> has no <saml:Issuer> to anchor the signature");
            return Err(ProfileError::Other(m));
        },
    };
    let no_range = to_owned_string("Issuer node has no source range");
    match issuer.source_end {
        Some(end) => match splice_at_byte_offset(xml, end, sig_template) {
            Some(out) => Ok(out),
            None => Err(ProfileError::Other(no_range)),
        },
        None => Err(ProfileError::Other(no_range)),
    }
}

// ── Reading an AuthnRequest ────────────────────────────────────────────────

/// What the IdP takes from an `AuthnRequest` to authenticate the user and
/// answer.
#[derive(Debug, Clone)]
pub struct ProcessedAuthnRequest {
    /// The request ID (the response's `InResponseTo`).
    pub request_id: String,
    /// The SP entity ID (from the issuer).
    pub sp_entity_id: String,
    /// Where the response goes.
    pub acs_url: String,
    /// The binding of the response.
    pub acs_binding: String,
    /// Whether to force re-authentication.
    pub force_authn: bool,
    /// Whether the IdP must not interact with the user.
    pub is_passive: bool,
    /// The requested name identifier format.
    pub requested_name_id_format: Option<String>,
    /// Whether new identifiers may be created.
    pub allow_create: bool,
    /// The requested authentication context classes.
    pub requested_authn_context_class_refs: Vec<String>,
    /// The comparison for the requested classes.
    pub authn_context_comparison: Option<AuthnContextComparison>,
    /// The `AttributeConsumingServiceIndex`.
    pub attribute_consuming_service_index: Option<u16>,
    /// The raw `samlp:Extensions` element, if any.
    pub extensions: Option<String>,
}

/// Whether some ACS endpoint is at `url`.
pub open spec fn has_acs_location(es: Seq<IndexedEndpoint>, url: Seq<char>) -> bool {
    exists|k: int| 0 <= k < es.len() && #[trigger] es[k].endpoint.location@ == url
}

/// The position of the first endpoint with index `idx` at or after `i`.
pub open spec fn first_with_index(es: Seq<IndexedEndpoint>, idx: u16, i: int) -> Option<int>
    decreases es.len() - i,
{
    if i < 0 || i >= es.len() {
        None
    } else if es[i].index == idx {
        Some(i)
    } else {
        first_with_index(es, idx, i + 1)
    }
}

/// Whether the pair `p` is the location and binding of `e`.
pub open spec fn is_endpoint_pair(p: (String, String), e: IndexedEndpoint) -> bool {
    p.0@ == e.endpoint.location@ && p.1@ == e.endpoint.binding@
}

/// The failure when nothing resolves.
pub open spec fn unresolved(r: Result<(String, String), ProfileError>) -> bool {
    r matches Err(ProfileError::NoAcsEndpoint(m)) && m@ == "no ACS endpoint could be resolved"@
}

/// The ACS endpoint the request and the SP's metadata resolve to: a URL in
/// the request (with its binding, HTTP-POST by default) must be one of the
/// SP's ACS locations when metadata is given; else an index in the request
/// must name an endpoint of the metadata; else the metadata's default
/// endpoint (the first marked default, else the first with the lowest
/// index) is taken.
pub open spec fn acs_resolution(req: AuthnRequest, sp: Option<&SpSsoDescriptor>, r: Result<(String, String), ProfileError>) -> bool {
    match req.assertion_consumer_service_url {
        Some(url) => if sp matches Some(s) && !has_acs_location(s.assertion_consumer_services@, url@) {
            r matches Err(ProfileError::AcsUrlMismatch)
        } else {
            r matches Ok(p) && p.0@ == url@ && p.1@ == match req.protocol_binding {
                Some(b) => b@,
                None => BINDING_HTTP_POST@,
            }
        },
        None => match req.assertion_consumer_service_index {
            Some(idx) => match sp {
                Some(s) => match first_with_index(s.assertion_consumer_services@, idx, 0) {
                    Some(k) => r matches Ok(p) && is_endpoint_pair(p, s.assertion_consumer_services@[k]),
                    None => r matches Err(ProfileError::NoAcsEndpoint(m)) && m@ == "index "@ + decimal_text(idx as nat)
                        + " not found in SP metadata"@,
                },
                None => r matches Err(ProfileError::NoAcsEndpoint(m)) && m@ == "index "@ + decimal_text(idx as nat)
                    + " not found in SP metadata"@,
            },
            None => match sp {
                Some(s) => match first_default(s.assertion_consumer_services@, 0) {
                    Some(k) => r matches Ok(p) && is_endpoint_pair(p, s.assertion_consumer_services@[k]),
                    None => if s.assertion_consumer_services.len() == 0 {
                        unresolved(r)
                    } else {
                        exists|k: int| is_first_lowest(s.assertion_consumer_services@, k) && (r matches Ok(p) && is_endpoint_pair(p, s.assertion_consumer_services@[k]))
                    },
                },
                None => unresolved(r),
            },
        },
    }
}

/// A position found by `first_with_index` holds an endpoint of that index.
proof fn lemma_first_with_index(es: Seq<IndexedEndpoint>, idx: u16, i: int)
    requires
        0 <= i,
        first_with_index(es, idx, i) is Some,
    ensures
        i <= first_with_index(es, idx, i)->0 < es.len(),
    decreases es.len() - i,
{
    if i < es.len() && es[i].index != idx {
        lemma_first_with_index(es, idx, i + 1);
    }
}

/// A position found by `first_default` is within the endpoints.
proof fn lemma_first_default(es: Seq<IndexedEndpoint>, i: int)
    requires
        0 <= i,
        first_default(es, i) is Some,
    ensures
        i <= first_default(es, i)->0 < es.len(),
    decreases es.len() - i,
{
    if i < es.len() && es[i].is_default != Some(true) {
        lemma_first_default(es, i + 1);
    }
}

/// With the SP's metadata at hand, a resolved ACS endpoint is always one of
/// the SP's registered ACS locations, whichever way it was resolved: a
/// response can never be sent to a URL the SP did not register.
pub proof fn lemma_resolved_acs_is_registered(req: AuthnRequest, sp: SpSsoDescriptor, r: Result<(String, String), ProfileError>)
    requires
        acs_resolution(req, Some(&sp), r),
        r is Ok,
    ensures
        has_acs_location(sp.assertion_consumer_services@, r->Ok_0.0@),
{
    let es = sp.assertion_consumer_services@;
    let p = r->Ok_0;
    match req.assertion_consumer_service_url {
        Some(url) => {},
        None => match req.assertion_consumer_service_index {
            Some(idx) => {
                lemma_first_with_index(es, idx, 0);
                let k = first_with_index(es, idx, 0)->0;
                assert(es[k].endpoint.location@ == p.0@);
            },
            None => match first_default(es, 0) {
                Some(k) => {
                    lemma_first_default(es, 0);
                    assert(es[k].endpoint.location@ == p.0@);
                },
                None => {
                    let k = choose|k: int| is_first_lowest(es, k) && (r matches Ok(q) && is_endpoint_pair(q, es[k]));
                    assert(es[k].endpoint.location@ == p.0@);
                },
            },
        },
    }
}

/// The location and binding of an endpoint, copied.
fn endpoint_pair(e: &IndexedEndpoint) -> (r: (String, String))
    ensures
        is_endpoint_pair(r, *e),
{
    (to_owned_string(e.endpoint.location.as_str()), to_owned_string(e.endpoint.binding.as_str()))
}

/// Resolves the ACS endpoint of the response (see `acs_resolution`).
fn resolve_acs_endpoint(request: &AuthnRequest, sp_metadata: Option<&SpSsoDescriptor>) -> (r: Result<(String, String), ProfileError>)
    ensures
        acs_resolution(*request, sp_metadata, r),
{
    match &request.assertion_consumer_service_url {
        Some(url) => {
            let binding = match &request.protocol_binding {
                Some(b) => to_owned_string(b.as_str()),
                None => to_owned_string(BINDING_HTTP_POST),
            };
            match sp_metadata {
                Some(sp) => {
                    let mut found = false;
                    let mut i: usize = 0;
                    while i < sp.assertion_consumer_services.len()
                        invariant
                            0 <= i <= sp.assertion_consumer_services.len(),
                            found <==> exists|k: int| 0 <= k < i && #[trigger] sp.assertion_consumer_services@[k].endpoint.location@ == url@,
                        decreases sp.assertion_consumer_services.len() - i,
                    {
                        if str_eq(sp.assertion_consumer_services[i].endpoint.location.as_str(), url.as_str()) {
                            found = true;
                        }
                        i = i + 1;
                    }
                    if !found {
                        return Err(ProfileError::AcsUrlMismatch);
                    }
                },
                None => {},
            }
            return Ok((to_owned_string(url.as_str()), binding));
        },
        None => {},
    }
    match request.assertion_consumer_service_index {
        Some(index) => {
            match sp_metadata {
                Some(sp) => {
                    let es = &sp.assertion_consumer_services;
                    let mut i: usize = 0;
                    while i < es.len()
                        invariant
                            0 <= i <= es.len(),
                            request.assertion_consumer_service_url is None,
                            request.assertion_consumer_service_index == Some(index),
                            sp_metadata == Some(sp),
                            es@ == sp.assertion_consumer_services@,
                            first_with_index(es@, index, 0) == first_with_index(es@, index, i as int),
                        decreases es.len() - i,
                    {
                        if es[i].index == index {
                            return Ok(endpoint_pair(&es[i]));
                        }
                        i = i + 1;
                    }
                },
                None => {},
            }
            let mut m = to_owned_string("index ");
            let n = decimal_string(index as usize);
            push_str(&mut m, n.as_str());
            push_str(&mut m, " not found in SP metadata");
            return Err(ProfileError::NoAcsEndpoint(m));
        },
        None => {},
    }
    match sp_metadata {
        Some(sp) => match find_default_acs_endpoint(sp.assertion_consumer_services.as_slice()) {
            Some(ep) => {
                return Ok(endpoint_pair(ep));
            },
            None => {},
        },
        None => {},
    }
    Err(ProfileError::NoAcsEndpoint(to_owned_string("no ACS endpoint could be resolved")))
}

/// Whether `p` carries what the IdP takes from `req`, besides the ACS
/// endpoint: the request ID and issuer, `ForceAuthn` and `IsPassive`
/// (false when absent), the name identifier policy's format and
/// `AllowCreate` (none and false without a policy), the requested classes
/// and comparison, the attribute service index and the extensions.
pub open spec fn is_processed_from(p: ProcessedAuthnRequest, req: AuthnRequest) -> bool {
    &&& p.request_id@ == req.base.id@
    &&& req.base.issuer matches Some(i) && p.sp_entity_id@ == i.value@
    &&& p.force_authn == (req.force_authn == Some(true))
    &&& p.is_passive == (req.is_passive == Some(true))
    &&& match req.name_id_policy {
        Some(pol) => opt_string_view(p.requested_name_id_format) == opt_string_view(pol.format) && p.allow_create
            == pol.allow_create,
        None => p.requested_name_id_format is None && !p.allow_create,
    }
    &&& match req.requested_authn_context {
        Some(c) => strings_view(p.requested_authn_context_class_refs@) == strings_view(c.authn_context_class_refs@)
            && p.authn_context_comparison == Some(c.comparison),
        None => p.requested_authn_context_class_refs.len() == 0 && p.authn_context_comparison is None,
    }
    &&& p.attribute_consuming_service_index == req.attribute_consuming_service_index
    &&& opt_string_view(p.extensions) == opt_string_view(req.extensions)
}

/// The ACS part of a processing outcome.
pub open spec fn acs_of(r: Result<ProcessedAuthnRequest, ProfileError>) -> Result<(String, String), ProfileError> {
    match r {
        Ok(p) => Ok((p.acs_url, p.acs_binding)),
        Err(e) => Err(e),
    }
}

/// Reads an incoming `AuthnRequest` at the IdP: the issuer is required
/// (else `MissingIssuer`), the ACS endpoint is resolved and checked against
/// the SP's metadata (see `acs_resolution`), and the parameters of the
/// request are taken over.
pub fn process_authn_request(request: &AuthnRequest, sp_metadata: Option<&SpSsoDescriptor>) -> (r: Result<
    ProcessedAuthnRequest,
    ProfileError,
>)
    ensures
        request.base.issuer is None ==> r matches Err(ProfileError::MissingIssuer),
        request.base.issuer is Some ==> acs_resolution(*request, sp_metadata, acs_of(r)),
        r matches Ok(p) ==> is_processed_from(p, *request),
{
    let sp_entity_id = match &request.base.issuer {
        Some(i) => to_owned_string(i.value.as_str()),
        None => return Err(ProfileError::MissingIssuer),
    };
    let (acs_url, acs_binding) = match resolve_acs_endpoint(request, sp_metadata) {
        Ok(pair) => pair,
        Err(e) => return Err(e),
    };
    let force_authn = match request.force_authn {
        Some(b) => b,
        None => false,
    };
    let is_passive = match request.is_passive {
        Some(b) => b,
        None => false,
    };
    let (requested_name_id_format, allow_create) = match &request.name_id_policy {
        Some(policy) => (crate::protocol::opt_string_clone(&policy.format), policy.allow_create),
        None => (None, false),
    };
    let (requested_authn_context_class_refs, authn_context_comparison) = match &request.requested_authn_context {
        Some(ctx) => (strings_clone(ctx.authn_context_class_refs.as_slice()), Some(ctx.comparison)),
        None => (Vec::new(), None),
    };
    Ok(ProcessedAuthnRequest {
        request_id: to_owned_string(request.base.id.as_str()),
        sp_entity_id,
        acs_url,
        acs_binding,
        force_authn,
        is_passive,
        requested_name_id_format,
        allow_create,
        requested_authn_context_class_refs,
        authn_context_comparison,
        attribute_consuming_service_index: request.attribute_consuming_service_index,
        extensions: crate::protocol::opt_string_clone(&request.extensions),
    })
}

// ── Building responses ─────────────────────────────────────────────────────

/// When the assertion of a response built with `o` at `times` expires.
pub open spec fn assertion_expiry(o: ResponseOptions, times: ResponseTimes) -> int {
    times.issue_instant + seconds_span(o.assertion_lifetime_seconds as int)
}

/// Whether `a` is the assertion built for `o`, the principal `n` and
/// `times`: a fresh ID, issued by the IdP at the issue instant, unsigned;
/// the subject is `n` with one bearer confirmation (recipient the ACS URL,
/// `NotOnOrAfter` the expiry, the request answered, the client address);
/// the conditions run from the issue instant to the expiry for the SP as
/// the one audience; one AuthnStatement at the authentication instant with
/// the session and class reference of `o` and the client address as
/// locality; one AttributeStatement with the attributes of `o`, or none
/// when there are none.
pub open spec fn is_assertion_for(a: Assertion, o: ResponseOptions, n: NameId, times: ResponseTimes) -> bool {
    &&& is_assertion_core(a, o, n, times)
    &&& if o.attributes.len() == 0 {
        a.attribute_statements.len() == 0
    } else {
        a.attribute_statements.len() == 1 && same_attributes(a.attribute_statements@[0].attributes@, o.attributes@)
    }
}

/// Everything [`is_assertion_for`] says but the attribute statements.
pub open spec fn is_assertion_core(a: Assertion, o: ResponseOptions, n: NameId, times: ResponseTimes) -> bool {
    let expiry = assertion_expiry(o, times);
    &&& is_generated_id(a.id@)
    &&& a.version == SamlVersion::V2_0
    &&& a.issue_instant == times.issue_instant
    &&& is_entity_issuer(Some(a.issuer), o.idp_entity_id@)
    &&& !a.has_signature
    &&& a.subject matches Some(s) && {
        &&& s.name_id matches Some(NameIdOrEncryptedId::NameId(x)) && x.view_fields() == n.view_fields()
        &&& s.subject_confirmations.len() == 1
        &&& s.subject_confirmations@[0].method@ == CM_BEARER@
        &&& s.subject_confirmations@[0].name_id is None
        &&& s.subject_confirmations@[0].subject_confirmation_data matches Some(d) && {
            &&& d.not_before is None
            &&& d.not_on_or_after == Some(expiry as i128)
            &&& opt_string_view(d.recipient) == Some(o.acs_url@)
            &&& opt_string_view(d.in_response_to) == opt_string_view(o.in_response_to)
            &&& opt_string_view(d.address) == opt_string_view(o.client_address)
            &&& d.key_info_x509_certs.len() == 0
        }
    }
    &&& a.conditions matches Some(c) && {
        &&& c.not_before == Some(times.issue_instant)
        &&& c.not_on_or_after == Some(expiry as i128)
        &&& c.audience_restrictions.len() == 1
        &&& strings_view(c.audience_restrictions@[0].audiences@) == seq![o.sp_entity_id@]
        &&& !c.one_time_use
        &&& c.proxy_restriction is None
    }
    &&& a.authn_statements.len() == 1
    &&& a.authn_statements@[0].authn_instant == times.authn_instant
    &&& opt_string_view(a.authn_statements@[0].session_index) == opt_string_view(o.session_index)
    &&& a.authn_statements@[0].session_not_on_or_after == o.session_not_on_or_after
    &&& opt_string_view(a.authn_statements@[0].subject_locality) == opt_string_view(o.client_address)
    &&& opt_string_view(a.authn_statements@[0].authn_context.authn_context_class_ref) == opt_string_view(
        o.authn_context_class_ref,
    )
    &&& a.authn_statements@[0].authn_context.authn_context_decl_ref is None
    &&& a.authn_statements@[0].authn_context.authenticating_authorities.len() == 0
}

/// Whether `r` is the success response built for `o`, `n` and `times`: a
/// fresh ID, issued by the IdP at the issue instant to the ACS URL,
/// answering the request of `o`, unsigned, with a Success status and the one
/// assertion of [`is_assertion_for`].
pub open spec fn is_response_for(r: Response, o: ResponseOptions, n: NameId, times: ResponseTimes) -> bool {
    &&& is_response_envelope(r, o, times)
    &&& r.assertions.len() == 1
    &&& is_assertion_for(r.assertions@[0], o, n, times)
}

/// What [`is_response_for`] says of everything but the assertions.
pub open spec fn is_response_envelope(r: Response, o: ResponseOptions, times: ResponseTimes) -> bool {
    &&& is_generated_id(r.base.id@)
    &&& r.base.version == SamlVersion::V2_0
    &&& r.base.issue_instant == times.issue_instant
    &&& opt_string_view(r.base.destination) == Some(o.acs_url@)
    &&& r.base.consent is None
    &&& is_entity_issuer(r.base.issuer, o.idp_entity_id@)
    &&& !r.base.has_signature
    &&& opt_string_view(r.base.in_response_to) == opt_string_view(o.in_response_to)
    &&& status_is(r.base.status, STATUS_SUCCESS@, None, None)
    &&& r.encrypted_assertions.len() == 0
}

/// Builds the response to an SP-initiated request: one assertion with an
/// AuthnStatement, a bearer confirmation to the ACS URL, the SP as
/// audience, and the session index for logout.
pub fn create_response(options: &ResponseOptions, principal_name_id: &NameId, times: ResponseTimes) -> (r: Response)
    requires
        times.issue_instant + seconds_span(options.assertion_lifetime_seconds as int) <= i128::MAX,
    ensures
        is_response_for(r, *options, *principal_name_id, times),
{
    let now = times.issue_instant;
    let not_on_or_after: i128 = now + unsigned_seconds_to_nanos(options.assertion_lifetime_seconds);
    let subject_confirmation = SubjectConfirmation {
        method: to_owned_string(CM_BEARER),
        name_id: None,
        subject_confirmation_data: Some(
            SubjectConfirmationData {
                not_before: None,
                not_on_or_after: Some(not_on_or_after),
                recipient: Some(to_owned_string(options.acs_url.as_str())),
                in_response_to: opt_string_clone(&options.in_response_to),
                address: opt_string_clone(&options.client_address),
                key_info_x509_certs: Vec::new(),
            },
        ),
    };
    let mut confirmations: Vec<SubjectConfirmation> = Vec::new();
    confirmations.push(subject_confirmation);
    let subject = Subject {
        name_id: Some(NameIdOrEncryptedId::NameId(principal_name_id.duplicate())),
        subject_confirmations: confirmations,
    };
    let mut audiences: Vec<String> = Vec::new();
    audiences.push(to_owned_string(options.sp_entity_id.as_str()));
    assert(strings_view(audiences@) =~= seq![options.sp_entity_id@]);
    let mut restrictions: Vec<AudienceRestriction> = Vec::new();
    restrictions.push(AudienceRestriction { audiences });
    let conditions = Conditions {
        not_before: Some(now),
        not_on_or_after: Some(not_on_or_after),
        audience_restrictions: restrictions,
        one_time_use: false,
        proxy_restriction: None,
    };
    let authn_statement = AuthnStatement {
        authn_instant: times.authn_instant,
        session_index: opt_string_clone(&options.session_index),
        session_not_on_or_after: options.session_not_on_or_after,
        subject_locality: opt_string_clone(&options.client_address),
        authn_context: AuthnContext {
            authn_context_class_ref: opt_string_clone(&options.authn_context_class_ref),
            authn_context_decl_ref: None,
            authenticating_authorities: Vec::new(),
        },
    };
    let mut authn_statements: Vec<AuthnStatement> = Vec::new();
    authn_statements.push(authn_statement);
    let mut attribute_statements: Vec<AttributeStatement> = Vec::new();
    if options.attributes.len() > 0 {
        attribute_statements.push(AttributeStatement { attributes: duplicate_attributes(options.attributes.as_slice()) });
    }
    let assertion = Assertion {
        id: generate_saml_id(),
        version: SamlVersion::V2_0,
        issue_instant: now,
        issuer: Issuer::entity(options.idp_entity_id.as_str()),
        has_signature: false,
        subject: Some(subject),
        conditions: Some(conditions),
        authn_statements,
        attribute_statements,
    };
    let mut assertions: Vec<Assertion> = Vec::new();
    assertions.push(assertion);
    Response {
        base: ResponseBase {
            id: generate_saml_id(),
            version: SamlVersion::V2_0,
            issue_instant: now,
            destination: Some(to_owned_string(options.acs_url.as_str())),
            consent: None,
            issuer: Some(Issuer::entity(options.idp_entity_id.as_str())),
            has_signature: false,
            in_response_to: opt_string_clone(&options.in_response_to),
            status: Status::success(),
        },
        assertions,
        encrypted_assertions: Vec::new(),
    }
}

/// Whether `r` is the error response from `idp` answering `irt` at `acs`
/// with `status` at `now`: no assertions, unsigned.
pub open spec fn is_error_response_for(r: Response, idp: Seq<char>, irt: Option<Seq<char>>, acs: Seq<char>, status: Status, now: i128) -> bool {
    &&& is_generated_id(r.base.id@)
    &&& r.base.version == SamlVersion::V2_0
    &&& r.base.issue_instant == now
    &&& opt_string_view(r.base.destination) == Some(acs)
    &&& r.base.consent is None
    &&& is_entity_issuer(r.base.issuer, idp)
    &&& !r.base.has_signature
    &&& opt_string_view(r.base.in_response_to) == irt
    &&& r.base.status == status
    &&& r.assertions.len() == 0
    &&& r.encrypted_assertions.len() == 0
}

/// Builds an error response carrying `status` and no assertions, delivered
/// to the ACS URL like any response and answering the request when there
/// is one; it is left unsigned.
pub fn create_error_response(idp_entity_id: &str, in_response_to: Option<&str>, acs_url: &str, status: Status, now: i128) -> (r: Response)
    ensures
        is_error_response_for(r, idp_entity_id@, crate::text::opt_str_view(in_response_to), acs_url@, status, now),
{
    Response {
        base: ResponseBase {
            id: generate_saml_id(),
            version: SamlVersion::V2_0,
            issue_instant: now,
            destination: Some(to_owned_string(acs_url)),
            consent: None,
            issuer: Some(Issuer::entity(idp_entity_id)),
            has_signature: false,
            in_response_to: crate::text::opt_str_to_owned(in_response_to),
            status,
        },
        assertions: Vec::new(),
        encrypted_assertions: Vec::new(),
    }
}

/// Whether `o` carries the given values and no request to answer.
pub open spec fn is_unsolicited_options(
    o: ResponseOptions,
    idp: Seq<char>,
    sp: Seq<char>,
    acs: Seq<char>,
    attributes: Seq<Attribute>,
    class_ref: Option<Seq<char>>,
    lifetime: u64,
    session_index: Option<Seq<char>>,
    session_not_on_or_after: Option<i128>,
    client_address: Option<Seq<char>>,
) -> bool {
    &&& o.idp_entity_id@ == idp
    &&& o.in_response_to is None
    &&& o.sp_entity_id@ == sp
    &&& o.acs_url@ == acs
    &&& o.assertion_lifetime_seconds == lifetime
    &&& opt_string_view(o.session_index) == session_index
    &&& o.session_not_on_or_after == session_not_on_or_after
    &&& opt_string_view(o.authn_context_class_ref) == class_ref
    &&& opt_string_view(o.client_address) == client_address
    &&& same_attributes(o.attributes@, attributes)
}

/// Builds an IdP-initiated (unsolicited) response: [`create_response`]
/// with no `InResponseTo`.
pub fn create_unsolicited_response(
    idp_entity_id: &str,
    sp_entity_id: &str,
    acs_url: &str,
    principal_name_id: &NameId,
    attributes: &[Attribute],
    authn_context_class_ref: Option<&str>,
    assertion_lifetime_seconds: u64,
    session_index: Option<&str>,
    session_not_on_or_after: Option<i128>,
    client_address: Option<&str>,
    times: ResponseTimes,
) -> (r: Response)
    requires
        times.issue_instant + seconds_span(assertion_lifetime_seconds as int) <= i128::MAX,
    ensures
        exists|o: ResponseOptions|
            is_unsolicited_options(
                o,
                idp_entity_id@,
                sp_entity_id@,
                acs_url@,
                attributes@,
                crate::text::opt_str_view(authn_context_class_ref),
                assertion_lifetime_seconds,
                crate::text::opt_str_view(session_index),
                session_not_on_or_after,
                crate::text::opt_str_view(client_address),
            ) && #[trigger] is_response_for(r, o, *principal_name_id, times),
{
    let options = ResponseOptions {
        idp_entity_id: to_owned_string(idp_entity_id),
        in_response_to: None,
        sp_entity_id: to_owned_string(sp_entity_id),
        acs_url: to_owned_string(acs_url),
        assertion_lifetime_seconds,
        session_index: crate::text::opt_str_to_owned(session_index),
        session_not_on_or_after,
        authn_context_class_ref: crate::text::opt_str_to_owned(authn_context_class_ref),
        client_address: crate::text::opt_str_to_owned(client_address),
        attributes: duplicate_attributes(attributes),
    };
    let r = create_response(&options, principal_name_id, times);
    proof {
        assert(is_unsolicited_options(
            options,
            idp_entity_id@,
            sp_entity_id@,
            acs_url@,
            attributes@,
            crate::text::opt_str_view(authn_context_class_ref),
            assertion_lifetime_seconds,
            crate::text::opt_str_view(session_index),
            session_not_on_or_after,
            crate::text::opt_str_view(client_address),
        ));
    }
    r
}

/// What the SP requests, the IdP reads: processing a request made by
/// `create_authn_request` yields the request's ID, the SP as issuer, the
/// SP's `ForceAuthn`, `IsPassive`, name identifier format and `AllowCreate`,
/// requested classes, attribute service index and extensions; without
/// metadata to check against, the ACS URL and binding asked for (HTTP-POST
/// by default) are where the response goes.
pub proof fn lemma_requested_is_processed(
    o: crate::profiles::sso::web_browser::AuthnRequestOptions,
    req: AuthnRequest,
    r: Result<ProcessedAuthnRequest, ProfileError>,
)
    requires
        crate::profiles::sso::sp::is_authn_request_for(req, o),
        acs_resolution(req, None, acs_of(r)),
        r matches Ok(p) ==> is_processed_from(p, req),
    ensures
        r matches Ok(p) ==> {
            &&& p.request_id@ == req.base.id@
            &&& p.sp_entity_id@ == o.sp_entity_id@
            &&& p.force_authn == (o.force_authn == Some(true))
            &&& p.is_passive == (o.is_passive == Some(true))
            &&& opt_string_view(p.requested_name_id_format) == opt_string_view(o.name_id_format)
            &&& p.allow_create == o.allow_create
            &&& strings_view(p.requested_authn_context_class_refs@) == strings_view(o.authn_context_class_refs@)
            &&& p.attribute_consuming_service_index == o.attribute_consuming_service_index
            &&& opt_string_view(p.extensions) == opt_string_view(o.extensions)
        },
        o.acs_url matches Some(u) ==> (r matches Ok(p) && p.acs_url@ == u@ && p.acs_binding@ == match o.protocol_binding {
            Some(b) => b@,
            None => BINDING_HTTP_POST@,
        }),
{
}

} // verus!
