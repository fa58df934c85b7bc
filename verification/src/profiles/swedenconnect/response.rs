//! SP-side Response processing (section 6): the check that a response only
//! uses the cryptographic algorithms section 8 permits, and the profile's
//! processing of a validated response: unsolicited responses refused unless
//! enabled, the response issuer bound to the expected IdP, a signed response
//! and an encrypted assertion required, exactly one assertion, one
//! `AuthnStatement` and one `AttributeStatement`, a bearer or holder-of-key
//! confirmation, and the delivered Level of Assurance among those requested.

use vstd::prelude::*;
use crate::assertion::{Attribute, SubjectConfirmation};
use crate::profiles::error::ProfileError;
use crate::profiles::sso::web_browser::{
    assertions_attributes, authn_result_from, find_authn_assertion, first_with_authn, is_authn_result, same_attributes,
    AuthnResult,
};
use crate::protocol::{status_failure_message, status_failure_text, Assertion, NameIdOrEncryptedId, Response, STATUS_SUCCESS};
use crate::security::{failures_message, failures_text, CheckFailure};
use crate::text::{opt_string_view, str_eq, strings_view, to_owned_string};
use super::authn_context::validate_authn_context;
use super::config::SwedenConnectConfig;
use crate::xml::{
    attribute_value, get_attribute, namespace_is, parse_xml, parsed_document_element, xml_parse_error,
    xml_parse_error_message, XmlElement, XmlNode,
};
use super::constants::{
    self, allowed_block_encryption_algorithms, allowed_digest_algorithms, allowed_key_transport_algorithms,
    allowed_signature_algorithms,
};
use super::error::SwedenConnectError;

verus! {

/// The XML Encryption namespace.
pub const NS_XMLENC: &'static str = "http://www.w3.org/2001/04/xmlenc#";

/// The XML Encryption 1.1 namespace.
pub const NS_XMLENC11: &'static str = "http://www.w3.org/2009/xmlenc11#";

/// Where in the response an element sits, as far as algorithms go.
#[derive(Clone, Copy)]
pub struct AlgorithmContext {
    /// Inside an `EncryptedKey` (key transport).
    pub in_encrypted_key: bool,
    /// Inside an `EncryptedData` (block encryption).
    pub in_encrypted_data: bool,
}

/// Why an element fails the algorithm check.
pub enum AlgorithmFailure {
    /// A method element without its `Algorithm` attribute (the message).
    Missing(Seq<char>),
    /// An algorithm outside the allowed set for its use (the use, the URI).
    Disallowed(Seq<char>, Seq<char>),
}

/// Whether the element is in the XML Encryption (1.0 or 1.1) namespace.
pub open spec fn is_xmlenc(e: XmlElement) -> bool {
    namespace_is(e.namespace, NS_XMLENC@) || namespace_is(e.namespace, NS_XMLENC11@)
}

/// The check of one element in its context: the context for its children,
/// or why it fails.
pub open spec fn algorithm_step(e: XmlElement, ctx: AlgorithmContext) -> Result<AlgorithmContext, AlgorithmFailure> {
    let local = e.local_name@;
    let alg = attribute_value(e.attributes@, "Algorithm"@);
    if is_xmlenc(e) {
        if local == "EncryptedKey"@ {
            Ok(AlgorithmContext { in_encrypted_key: true, ..ctx })
        } else if local == "EncryptedData"@ {
            Ok(AlgorithmContext { in_encrypted_data: true, ..ctx })
        } else if local == "EncryptionMethod"@ {
            match alg {
                None => Err(AlgorithmFailure::Missing("EncryptionMethod is missing Algorithm"@)),
                Some(a) => if ctx.in_encrypted_key {
                    if allowed_key_transport_algorithms().contains(a) {
                        Ok(ctx)
                    } else {
                        Err(AlgorithmFailure::Disallowed("key transport"@, a))
                    }
                } else if ctx.in_encrypted_data && !allowed_block_encryption_algorithms().contains(a) {
                    Err(AlgorithmFailure::Disallowed("block encryption"@, a))
                } else {
                    Ok(ctx)
                },
            }
        } else {
            Ok(ctx)
        }
    } else if namespace_is(e.namespace, constants::NS_DS@) {
        if local == "SignatureMethod"@ {
            match alg {
                None => Err(AlgorithmFailure::Missing("SignatureMethod is missing Algorithm"@)),
                Some(a) => if allowed_signature_algorithms().contains(a) {
                    Ok(ctx)
                } else {
                    Err(AlgorithmFailure::Disallowed("signature"@, a))
                },
            }
        } else if local == "DigestMethod"@ {
            match alg {
                None => Err(AlgorithmFailure::Missing("DigestMethod is missing Algorithm"@)),
                Some(a) => if allowed_digest_algorithms().contains(a) || (ctx.in_encrypted_key && a
                    == constants::DIGEST_SHA1@) {
                    Ok(ctx)
                } else {
                    Err(AlgorithmFailure::Disallowed("digest"@, a))
                },
            }
        } else {
            Ok(ctx)
        }
    } else {
        Ok(ctx)
    }
}

/// The first failure in the subtree of `n`, in document order.
pub open spec fn algorithm_failure(n: XmlNode, ctx: AlgorithmContext) -> Option<AlgorithmFailure>
    decreases n,
{
    match n {
        XmlNode::Element(e) => match algorithm_step(e, ctx) {
            Err(f) => Some(f),
            Ok(next) => children_algorithm_failure(e.children@, next),
        },
        _ => None,
    }
}

/// The first failure among a sequence of siblings, in order.
pub open spec fn children_algorithm_failure(cs: Seq<XmlNode>, ctx: AlgorithmContext) -> Option<AlgorithmFailure>
    decreases cs,
{
    if cs.len() == 0 {
        None
    } else {
        match children_algorithm_failure(cs.drop_last(), ctx) {
            Some(f) => Some(f),
            None => algorithm_failure(cs.last(), ctx),
        }
    }
}

/// The error a failure is reported as.
pub open spec fn reports_failure(e: SwedenConnectError, f: AlgorithmFailure) -> bool {
    match f {
        AlgorithmFailure::Missing(m) => e matches SwedenConnectError::Other(x) && x@ == m,
        AlgorithmFailure::Disallowed(kind, uri) => e matches SwedenConnectError::DisallowedAlgorithm { kind: k, uri: u }
            && k@ == kind && u@ == uri,
    }
}

/// The message when the response has no document element.
pub const NO_DOCUMENT_ELEMENT_MESSAGE: &'static str = "response XML has no document element";

/// The outcome of checking the algorithms of one element.
fn check_element(e: &XmlElement, ctx: AlgorithmContext) -> (r: Result<AlgorithmContext, SwedenConnectError>)
    ensures
        match algorithm_step(*e, ctx) {
            Ok(next) => r == Ok::<AlgorithmContext, SwedenConnectError>(next),
            Err(f) => r matches Err(err) && reports_failure(err, f),
        },
{
    proof {
        lemma_namespaces_distinct();
    }
    let local = e.local_name.as_str();
    let enc = match &e.namespace {
        Some(ns) => str_eq(ns.as_str(), NS_XMLENC) || str_eq(ns.as_str(), NS_XMLENC11),
        None => false,
    };
    let ds = match &e.namespace {
        Some(ns) => str_eq(ns.as_str(), constants::NS_DS),
        None => false,
    };
    if enc {
        if str_eq(local, "EncryptedKey") {
            Ok(AlgorithmContext { in_encrypted_key: true, ..ctx })
        } else if str_eq(local, "EncryptedData") {
            Ok(AlgorithmContext { in_encrypted_data: true, ..ctx })
        } else if str_eq(local, "EncryptionMethod") {
            match get_attribute(e, "Algorithm") {
                None => Err(SwedenConnectError::Other(to_owned_string("EncryptionMethod is missing Algorithm"))),
                Some(a) => {
                    if ctx.in_encrypted_key {
                        if constants::is_allowed_key_transport_algorithm(a.as_str()) {
                            Ok(ctx)
                        } else {
                            Err(SwedenConnectError::DisallowedAlgorithm { kind: "key transport", uri: a })
                        }
                    } else if ctx.in_encrypted_data && !constants::is_allowed_block_encryption_algorithm(
                        a.as_str(),
                    ) {
                        Err(SwedenConnectError::DisallowedAlgorithm { kind: "block encryption", uri: a })
                    } else {
                        Ok(ctx)
                    }
                },
            }
        } else {
            Ok(ctx)
        }
    } else if ds {
        if str_eq(local, "SignatureMethod") {
            match get_attribute(e, "Algorithm") {
                None => Err(SwedenConnectError::Other(to_owned_string("SignatureMethod is missing Algorithm"))),
                Some(a) => {
                    if constants::is_allowed_signature_algorithm(a.as_str()) {
                        Ok(ctx)
                    } else {
                        Err(SwedenConnectError::DisallowedAlgorithm { kind: "signature", uri: a })
                    }
                },
            }
        } else if str_eq(local, "DigestMethod") {
            match get_attribute(e, "Algorithm") {
                None => Err(SwedenConnectError::Other(to_owned_string("DigestMethod is missing Algorithm"))),
                Some(a) => {
                    let allowed = constants::is_allowed_digest_algorithm(a.as_str()) || (ctx.in_encrypted_key
                        && str_eq(a.as_str(), constants::DIGEST_SHA1));
                    if allowed {
                        Ok(ctx)
                    } else {
                        Err(SwedenConnectError::DisallowedAlgorithm { kind: "digest", uri: a })
                    }
                },
            }
        } else {
            Ok(ctx)
        }
    } else {
        Ok(ctx)
    }
}

/// The XML Encryption namespaces differ from the XML Signature namespace.
proof fn lemma_namespaces_distinct()
    ensures
        NS_XMLENC@ != constants::NS_DS@,
        NS_XMLENC11@ != constants::NS_DS@,
{
    reveal_strlit("http://www.w3.org/2001/04/xmlenc#");
    reveal_strlit("http://www.w3.org/2009/xmlenc11#");
    reveal_strlit("http://www.w3.org/2000/09/xmldsig#");
    assert(NS_XMLENC@.len() != constants::NS_DS@.len());
    assert(NS_XMLENC11@.len() != constants::NS_DS@.len());
}

/// Checks the subtree of `n` in document order, stopping at the first
/// failure.
pub fn validate_algorithms_recursive(n: &XmlNode, ctx: AlgorithmContext) -> (r: Result<(), SwedenConnectError>)
    ensures
        match algorithm_failure(*n, ctx) {
            None => r is Ok,
            Some(f) => r matches Err(err) && reports_failure(err, f),
        },
    decreases n,
{
    match n {
        XmlNode::Element(e) => {
            let next = match check_element(e, ctx) {
                Ok(next) => next,
                Err(err) => return Err(err),
            };
            let mut i: usize = 0;
            while i < e.children.len()
                invariant
                    *n == XmlNode::Element(*e),
                    algorithm_step(*e, ctx) == Ok::<AlgorithmContext, AlgorithmFailure>(next),
                    i <= e.children.len(),
                    children_algorithm_failure(e.children@.subrange(0, i as int), next) is None,
                decreases e.children.len() - i,
            {
                assert(e.children@.subrange(0, i + 1).drop_last() =~= e.children@.subrange(0, i as int));
                proof {
                    assert(decreases_to!(*n => (*n)->Element_0));
                    assert((*n)->Element_0 == *e);
                    assert(decreases_to!(*e => e.children));
                    assert(decreases_to!(e.children => e.children@));
                    assert(decreases_to!(e.children@ => e.children@[i as int]));
                }
                match validate_algorithms_recursive(&e.children[i], next) {
                    Ok(()) => {},
                    Err(err) => {
                        assert(children_algorithm_failure(e.children@.subrange(0, i + 1), next) == algorithm_failure(
                            e.children@[i as int],
                            next,
                        ));
                        proof {
                            lemma_children_failure_prefix(e.children@, next, i + 1);
                        }
                        return Err(err);
                    },
                }
                i = i + 1;
            }
            assert(e.children@.subrange(0, i as int) =~= e.children@);
            Ok(())
        },
        _ => Ok(()),
    }
}

/// A failure within a prefix of the siblings is the first failure of all of
/// them.
proof fn lemma_children_failure_prefix(cs: Seq<XmlNode>, ctx: AlgorithmContext, k: int)
    requires
        0 <= k <= cs.len(),
        children_algorithm_failure(cs.subrange(0, k), ctx) is Some,
    ensures
        children_algorithm_failure(cs, ctx) == children_algorithm_failure(cs.subrange(0, k), ctx),
    decreases cs.len() - k,
{
    if k < cs.len() {
        assert(cs.subrange(0, k + 1).drop_last() =~= cs.subrange(0, k));
        lemma_children_failure_prefix(cs, ctx, k + 1);
    } else {
        assert(cs.subrange(0, k) =~= cs);
    }
}

/// Validate that the raw response XML only uses algorithms permitted by
/// section 8 of the profile: signature and digest methods anywhere, key
/// transport inside `EncryptedKey` (where an OAEP SHA-1 digest is also
/// allowed), block encryption inside `EncryptedData`. The first offending
/// element in document order is reported; XML that does not parse is an
/// XML error.
pub fn validate_response_algorithms(response_xml: &str) -> (r: Result<(), SwedenConnectError>)
    ensures
        match parsed_document_element(response_xml@) {
            None => r matches Err(err) && match xml_parse_error_message(response_xml@) {
                Some(m) => err matches SwedenConnectError::Xml(x) && x@ == m,
                None => err matches SwedenConnectError::Other(x) && x@ == NO_DOCUMENT_ELEMENT_MESSAGE@,
            },
            Some(root) => match algorithm_failure(
                XmlNode::Element(root),
                AlgorithmContext { in_encrypted_key: false, in_encrypted_data: false },
            ) {
                None => r is Ok,
                Some(f) => r matches Err(err) && reports_failure(err, f),
            },
        },
{
    match parse_xml(response_xml) {
        Some(root) => {
            let node = XmlNode::Element(root);
            validate_algorithms_recursive(&node, AlgorithmContext { in_encrypted_key: false, in_encrypted_data: false })
        },
        None => match xml_parse_error(response_xml) {
            Some(m) => Err(SwedenConnectError::Xml(m)),
            None => Err(SwedenConnectError::Other(to_owned_string(NO_DOCUMENT_ELEMENT_MESSAGE))),
        },
    }
}

// ── Processing a validated response ────────────────────────────────────────

/// The inputs of [`process_response`] besides the configuration and the
/// response. The URLs, the relay state, the client address and the time are
/// what the assertion validation was run with; `validation_failures` is what
/// it reported.
pub struct SwedenConnectResponseParams<'a> {
    /// The URL at which the response was received.
    pub received_url: &'a str,
    /// The SP's ACS URL.
    pub acs_url: &'a str,
    /// The expected IdP `entityID` (from the IdP's metadata).
    pub expected_idp_entity_id: &'a str,
    /// The ID of the `AuthnRequest` this response answers, or `None` for an
    /// unsolicited response.
    pub expected_request_id: Option<&'a str>,
    /// Whether the response signature was verified against the IdP's key.
    pub response_signature_verified: bool,
    /// Whether the assertion arrived encrypted.
    pub assertion_was_encrypted: bool,
    /// The checks of the assertion validation that failed.
    pub validation_failures: &'a [CheckFailure],
    /// The RelayState.
    pub relay_state: Option<&'a str>,
    /// The client address.
    pub client_address: Option<&'a str>,
    /// The current time, in nanoseconds since the epoch.
    pub now: i128,
}

/// A successful Sweden Connect authentication.
#[derive(Debug, Clone)]
pub struct SwedenConnectAuthnResult {
    /// The Web Browser SSO result (identity, session, attributes).
    pub authn: AuthnResult,
    /// The delivered Level of Assurance.
    pub level_of_assurance: String,
    /// Whether a `signMessageDigest` attribute was delivered (the IdP showed,
    /// and the user accepted, a sign message).
    pub sign_message_displayed: bool,
}

/// The `InResponseTo` of the first confirmation that carries data.
pub open spec fn first_data_irt(scs: Seq<SubjectConfirmation>) -> Option<Seq<char>>
    decreases scs.len(),
{
    if scs.len() == 0 {
        None
    } else {
        match scs[0].subject_confirmation_data {
            Some(d) => opt_string_view(d.in_response_to),
            None => first_data_irt(scs.drop_first()),
        }
    }
}

/// The first `InResponseTo` an assertion's confirmation data claims, over
/// the assertions in order.
pub open spec fn first_assertion_irt(assertions: Seq<Assertion>) -> Option<Seq<char>>
    decreases assertions.len(),
{
    if assertions.len() == 0 {
        None
    } else {
        match match assertions[0].subject {
            Some(s) => first_data_irt(s.subject_confirmations@),
            None => None,
        } {
            Some(x) => Some(x),
            None => first_assertion_irt(assertions.drop_first()),
        }
    }
}

/// Whether some confirmation is bearer or holder-of-key.
pub open spec fn has_accepted_method(scs: Seq<SubjectConfirmation>) -> bool {
    exists|i: int|
        0 <= i < scs.len() && (#[trigger] scs[i].method@ == constants::CM_BEARER@ || scs[i].method@
            == constants::CM_HOLDER_OF_KEY@)
}

/// Whether a delivered attribute is the `signMessageDigest`.
pub open spec fn has_sign_message_digest(attrs: Seq<Attribute>) -> bool {
    exists|i: int| 0 <= i < attrs.len() && #[trigger] attrs[i].name@ == constants::ATTR_SIGN_MESSAGE_DIGEST@
}

/// The outcome owed once the response's assertion `a` bears the
/// authentication statement: one statement of each kind, an accepted
/// confirmation method, an acceptable Level of Assurance, and a plain name
/// identifier.
pub open spec fn sc_assertion_outcome(
    cfg: SwedenConnectConfig,
    response: Response,
    a: Assertion,
    r: Result<SwedenConnectAuthnResult, SwedenConnectError>,
) -> bool {
    if a.authn_statements.len() != 1 {
        r matches Err(SwedenConnectError::AuthnStatementCount(n)) && n == a.authn_statements.len()
    } else if a.attribute_statements.len() != 1 {
        r matches Err(SwedenConnectError::AttributeStatementCount(n)) && n == a.attribute_statements.len()
    } else {
        match a.subject {
            None => r matches Err(SwedenConnectError::Profile(ProfileError::MissingNameId)),
            Some(s) => if !has_accepted_method(s.subject_confirmations@) {
                r matches Err(SwedenConnectError::UnexpectedConfirmationMethod(m)) && m@ == if s.subject_confirmations.len()
                    > 0 {
                    s.subject_confirmations@[0].method@
                } else {
                    "<none>"@
                }
            } else {
                match a.authn_statements@[0].authn_context.authn_context_class_ref {
                    None => r matches Err(SwedenConnectError::MissingAuthnContextClassRef),
                    Some(loa) => if cfg.requested_loas.len() > 0 && !strings_view(cfg.requested_loas@).contains(loa@) {
                        r matches Err(SwedenConnectError::LevelOfAssuranceMismatch { received: got, requested: req })
                            && got@ == loa@ && strings_view(req@) == strings_view(cfg.requested_loas@)
                    } else {
                        match s.name_id {
                            None => r matches Err(SwedenConnectError::Profile(ProfileError::MissingNameId)),
                            Some(NameIdOrEncryptedId::EncryptedId(_)) => r matches Err(SwedenConnectError::Other(m)) && m@
                                == "EncryptedID MUST NOT be used; the whole assertion is encrypted (section 6.1)"@,
                            Some(NameIdOrEncryptedId::NameId(n)) => r matches Ok(x) && is_authn_result(x.authn, response, a, n)
                                && x.level_of_assurance@ == loa@ && x.sign_message_displayed == has_sign_message_digest(
                                assertions_attributes(response.assertions@),
                            ),
                        }
                    },
                }
            },
        }
    }
}

/// The outcome the profile owes for a response, in the order of its
/// checks: a Success status; a response issuer equal to the expected IdP;
/// an unsolicited response only when accepted, and then without any
/// `InResponseTo` in the response or in an assertion's confirmation data; a
/// verified signature; an encrypted assertion; exactly one assertion; no
/// failed validation check; then [`sc_assertion_outcome`] for the assertion
/// that bears the authentication statement.
pub open spec fn sc_processing(
    cfg: SwedenConnectConfig,
    response: Response,
    params: SwedenConnectResponseParams,
    r: Result<SwedenConnectAuthnResult, SwedenConnectError>,
) -> bool {
    if response.base.status.status_code.value@ != STATUS_SUCCESS@ {
        r matches Err(SwedenConnectError::Profile(ProfileError::ResponseFailure(m))) && m@ == status_failure_text(
            response.base.status,
        )
    } else {
        match response.base.issuer {
            None => r matches Err(SwedenConnectError::MissingResponseIssuer),
            Some(i) => if i.value@ != params.expected_idp_entity_id@ {
                r matches Err(SwedenConnectError::ResponseIssuerMismatch { received, expected }) && received@ == i.value@
                    && expected@ == params.expected_idp_entity_id@
            } else if params.expected_request_id is None && !cfg.accept_unsolicited {
                r matches Err(SwedenConnectError::UnsolicitedNotAllowed)
            } else if params.expected_request_id is None && response.base.in_response_to is Some {
                r matches Err(SwedenConnectError::UnexpectedInResponseTo(x)) && opt_string_view(response.base.in_response_to)
                    == Some(x@)
            } else if params.expected_request_id is None && first_assertion_irt(response.assertions@) is Some {
                r matches Err(SwedenConnectError::UnexpectedInResponseTo(x)) && first_assertion_irt(response.assertions@)
                    == Some(x@)
            } else if !params.response_signature_verified {
                r matches Err(SwedenConnectError::ResponseNotSigned)
            } else if !params.assertion_was_encrypted {
                r matches Err(SwedenConnectError::AssertionNotEncrypted)
            } else if response.assertions.len() == 0 {
                r matches Err(SwedenConnectError::Profile(ProfileError::NoAssertions))
            } else if response.assertions.len() != 1 {
                r matches Err(SwedenConnectError::AssertionCount(n)) && n == response.assertions.len()
            } else if params.validation_failures@.len() > 0 {
                r matches Err(SwedenConnectError::Profile(ProfileError::AssertionValidation(m))) && m@ == failures_text(
                    params.validation_failures@,
                )
            } else {
                match first_with_authn(response.assertions@, 0) {
                    None => r matches Err(SwedenConnectError::Profile(ProfileError::NoAuthnStatement)),
                    Some(k) => sc_assertion_outcome(cfg, response, response.assertions@[k], r),
                }
            },
        }
    }
}

/// The `InResponseTo` of the first confirmation that carries data.
fn first_data_irt_of(scs: &Vec<SubjectConfirmation>) -> (r: Option<&String>)
    ensures
        match r {
            Some(x) => first_data_irt(scs@) == Some(x@),
            None => first_data_irt(scs@) is None,
        },
{
    let mut i: usize = 0;
    assert(scs@.skip(0) =~= scs@);
    while i < scs.len()
        invariant
            0 <= i <= scs.len(),
            first_data_irt(scs@) == first_data_irt(scs@.skip(i as int)),
        decreases scs.len() - i,
    {
        assert(scs@.skip(i as int).drop_first() =~= scs@.skip(i + 1));
        assert(scs@.skip(i as int)[0] == scs@[i as int]);
        match &scs[i].subject_confirmation_data {
            Some(d) => {
                return match &d.in_response_to {
                    Some(x) => Some(x),
                    None => None,
                };
            },
            None => {},
        }
        i = i + 1;
    }
    None
}

/// The first `InResponseTo` an assertion's confirmation data claims.
fn first_assertion_irt_of(assertions: &Vec<Assertion>) -> (r: Option<&String>)
    ensures
        match r {
            Some(x) => first_assertion_irt(assertions@) == Some(x@),
            None => first_assertion_irt(assertions@) is None,
        },
{
    let mut i: usize = 0;
    assert(assertions@.skip(0) =~= assertions@);
    while i < assertions.len()
        invariant
            0 <= i <= assertions.len(),
            first_assertion_irt(assertions@) == first_assertion_irt(assertions@.skip(i as int)),
        decreases assertions.len() - i,
    {
        assert(assertions@.skip(i as int).drop_first() =~= assertions@.skip(i + 1));
        assert(assertions@.skip(i as int)[0] == assertions@[i as int]);
        match &assertions[i].subject {
            Some(s) => match first_data_irt_of(&s.subject_confirmations) {
                Some(x) => {
                    return Some(x);
                },
                None => {},
            },
            None => {},
        }
        i = i + 1;
    }
    None
}

/// Whether some confirmation is bearer or holder-of-key.
fn accepted_method_present(scs: &Vec<SubjectConfirmation>) -> (r: bool)
    ensures
        r == has_accepted_method(scs@),
{
    let mut i: usize = 0;
    while i < scs.len()
        invariant
            0 <= i <= scs.len(),
            forall|k: int|
                0 <= k < i ==> !(#[trigger] scs@[k].method@ == constants::CM_BEARER@ || scs@[k].method@
                    == constants::CM_HOLDER_OF_KEY@),
        decreases scs.len() - i,
    {
        if str_eq(scs[i].method.as_str(), constants::CM_BEARER) || str_eq(scs[i].method.as_str(), constants::CM_HOLDER_OF_KEY) {
            return true;
        }
        i = i + 1;
    }
    false
}

/// Whether a delivered attribute is the `signMessageDigest`.
fn sign_message_digest_present(attrs: &Vec<Attribute>) -> (r: bool)
    ensures
        r == has_sign_message_digest(attrs@),
{
    let mut i: usize = 0;
    while i < attrs.len()
        invariant
            0 <= i <= attrs.len(),
            forall|k: int| 0 <= k < i ==> #[trigger] attrs@[k].name@ != constants::ATTR_SIGN_MESSAGE_DIGEST@,
        decreases attrs.len() - i,
    {
        if str_eq(attrs[i].name.as_str(), constants::ATTR_SIGN_MESSAGE_DIGEST) {
            return true;
        }
        i = i + 1;
    }
    false
}

/// Checks the assertion bearing the authentication statement and builds
/// the result.
fn process_assertion(cfg: &SwedenConnectConfig, response: &Response, a: &Assertion) -> (r: Result<
    SwedenConnectAuthnResult,
    SwedenConnectError,
>)
    ensures
        sc_assertion_outcome(*cfg, *response, *a, r),
{
    if a.authn_statements.len() != 1 {
        return Err(SwedenConnectError::AuthnStatementCount(a.authn_statements.len()));
    }
    if a.attribute_statements.len() != 1 {
        return Err(SwedenConnectError::AttributeStatementCount(a.attribute_statements.len()));
    }
    let subject = match &a.subject {
        Some(s) => s,
        None => return Err(SwedenConnectError::Profile(ProfileError::MissingNameId)),
    };
    if !accepted_method_present(&subject.subject_confirmations) {
        let found = if subject.subject_confirmations.len() > 0 {
            to_owned_string(subject.subject_confirmations[0].method.as_str())
        } else {
            to_owned_string("<none>")
        };
        return Err(SwedenConnectError::UnexpectedConfirmationMethod(found));
    }
    let st = &a.authn_statements[0];
    let received_loa = match &st.authn_context.authn_context_class_ref {
        Some(l) => Some(l.as_str()),
        None => None,
    };
    validate_authn_context(received_loa, cfg.requested_loas.as_slice())?;
    let loa = match &st.authn_context.authn_context_class_ref {
        Some(l) => to_owned_string(l.as_str()),
        None => return Err(SwedenConnectError::MissingAuthnContextClassRef),
    };
    match &subject.name_id {
        Some(NameIdOrEncryptedId::NameId(n)) => {
            let authn = authn_result_from(response, a, n);
            let sign_message_displayed = sign_message_digest_present(&authn.attributes);
            proof {
                let want = assertions_attributes(response.assertions@);
                assert(same_attributes(authn.attributes@, want));
                if has_sign_message_digest(authn.attributes@) {
                    let i = choose|i: int| 0 <= i < authn.attributes@.len() && #[trigger] authn.attributes@[i].name@
                        == constants::ATTR_SIGN_MESSAGE_DIGEST@;
                    assert(want[i].name@ == constants::ATTR_SIGN_MESSAGE_DIGEST@);
                }
                if has_sign_message_digest(want) {
                    let i = choose|i: int| 0 <= i < want.len() && #[trigger] want[i].name@ == constants::ATTR_SIGN_MESSAGE_DIGEST@;
                    assert(authn.attributes@[i].name@ == constants::ATTR_SIGN_MESSAGE_DIGEST@);
                }
            }
            Ok(SwedenConnectAuthnResult { authn, level_of_assurance: loa, sign_message_displayed })
        },
        Some(NameIdOrEncryptedId::EncryptedId(_)) => Err(
            SwedenConnectError::Other(
                to_owned_string("EncryptedID MUST NOT be used; the whole assertion is encrypted (section 6.1)"),
            ),
        ),
        None => Err(SwedenConnectError::Profile(ProfileError::MissingNameId)),
    }
}

/// Processes a decrypted, signature-verified, assertion-validated response
/// by the profile's rules; see [`sc_processing`] for the outcome.
pub fn process_response(
    cfg: &SwedenConnectConfig,
    response: &Response,
    params: &SwedenConnectResponseParams<'_>,
) -> (r: Result<SwedenConnectAuthnResult, SwedenConnectError>)
    ensures
        sc_processing(*cfg, *response, *params, r),
{
    if !response.base.status.is_success() {
        return Err(
            SwedenConnectError::Profile(ProfileError::ResponseFailure(status_failure_message(&response.base.status))),
        );
    }
    let issuer = match &response.base.issuer {
        Some(i) => i,
        None => return Err(SwedenConnectError::MissingResponseIssuer),
    };
    if !str_eq(issuer.value.as_str(), params.expected_idp_entity_id) {
        return Err(
            SwedenConnectError::ResponseIssuerMismatch {
                received: to_owned_string(issuer.value.as_str()),
                expected: to_owned_string(params.expected_idp_entity_id),
            },
        );
    }
    if params.expected_request_id.is_none() && !cfg.accept_unsolicited {
        return Err(SwedenConnectError::UnsolicitedNotAllowed);
    }
    if params.expected_request_id.is_none() {
        match &response.base.in_response_to {
            Some(irt) => {
                return Err(SwedenConnectError::UnexpectedInResponseTo(to_owned_string(irt.as_str())));
            },
            None => {},
        }
        match first_assertion_irt_of(&response.assertions) {
            Some(irt) => {
                return Err(SwedenConnectError::UnexpectedInResponseTo(to_owned_string(irt.as_str())));
            },
            None => {},
        }
    }
    if !params.response_signature_verified {
        return Err(SwedenConnectError::ResponseNotSigned);
    }
    if !params.assertion_was_encrypted {
        return Err(SwedenConnectError::AssertionNotEncrypted);
    }
    if response.assertions.len() == 0 {
        return Err(SwedenConnectError::Profile(ProfileError::NoAssertions));
    }
    if response.assertions.len() != 1 {
        return Err(SwedenConnectError::AssertionCount(response.assertions.len()));
    }
    if params.validation_failures.len() > 0 {
        return Err(
            SwedenConnectError::Profile(ProfileError::AssertionValidation(failures_message(params.validation_failures))),
        );
    }
    let k = match find_authn_assertion(response.assertions.as_slice()) {
        Some(k) => k,
        None => return Err(SwedenConnectError::Profile(ProfileError::NoAuthnStatement)),
    };
    process_assertion(cfg, response, &response.assertions[k])
}

} // verus!
