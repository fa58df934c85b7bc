//! The SAML 2.0 Enhanced Client or Proxy (ECP) profile over the PAOS
//! binding, for all three roles:
//! - the SP builds the phase-one envelope carrying its `AuthnRequest`
//!   (`create_ecp_authn_request_envelope`) and reads the phase-two envelope
//!   (`parse_ecp_response_at_sp`);
//! - the enhanced client reads the phase-one envelope
//!   (`parse_ecp_authn_request_envelope`), forwards the request to the IdP,
//!   checks the IdP's ACS URL against the SP's `responseConsumerURL` and
//!   builds the phase-two envelope (`EcpRequest::process_idp_response`);
//! - the IdP unwraps the request (`parse_idp_ecp_request`) and wraps its
//!   response (`create_ecp_response_envelope`).

use vstd::prelude::*;
use vstd::utf8::*;
use crate::bindings::paos::{
    build_ecp_phase1_envelope, build_ecp_phase2_envelope, ecp_request_text, ecp_response_header_xml,
    ecp_response_text, opt_relay_state_text, paos_request_text, phase2_envelope_text, EcpRelayState,
    EcpResponse, PaosRequest, PaosResponse, ECP_NS, PAOS_CONTENT_TYPE, PAOS_NS,
};
use crate::bindings::paos;
use crate::bindings::soap::{soap_envelope_text, soap_envelope_wrap, soap_fault, soap_fault_body_text, SOAP11_NS};
use crate::encoding::{string_from_utf8, utf8_error, utf8_error_text};
use crate::metadata::types::key_descriptor::collect_deep_text;
use crate::metadata::types::md_extensions::{is_element, SAML_ASSERTION_NS};
use crate::profiles::error::ProfileError;
use crate::profiles::sso::idp::{find_first_child, first_child_element};
use crate::text::{
    chars_of, lemma_strings_view_push, opt_str_to_owned, opt_str_view, opt_string_view, push_str,
    seq_contains, str_contains, str_eq, string_of, strings_clone, strings_view, to_owned_string,
    trim, trim_chars,
};
use crate::xml::{
    attribute_value, element_is, get_attribute, node_deep_text, parse_xml_with_markup,
    parsed_document_with_markup, xml_parse_error, xml_parse_error_message, XmlElement, XmlNode,
};

verus! {

/// The HTTP `Accept` header value an ECP client sends to signal PAOS support.
pub const ECP_ACCEPT_HEADER: &'static str = "text/html; application/vnd.paos+xml";

/// The SAML protocol namespace.
pub const SAMLP_NS: &'static str = "urn:oasis:names:tc:SAML:2.0:protocol";

/// Options for the SP's phase-one PAOS envelope.
pub struct EcpAuthnRequestOptions<'a> {
    /// The serialized `AuthnRequest` (the SOAP body).
    pub authn_request_xml: &'a str,
    /// The SP entity ID (the `saml:Issuer` of the `ecp:Request` block).
    pub sp_entity_id: &'a str,
    /// Where the ECP must deliver the response; must equal the request's
    /// ACS URL.
    pub response_consumer_url: &'a str,
    /// The PAOS message ID, echoed back in phase two.
    pub message_id: Option<&'a str>,
    /// The SP's human-readable name.
    pub provider_name: Option<&'a str>,
    /// Whether the IdP must not interact with the user.
    pub is_passive: bool,
    /// The relay state the ECP must echo back.
    pub relay_state: Option<&'a str>,
    /// IdP entity IDs the ECP may use.
    pub idp_list: &'a [String],
}

/// The phase-one envelope the SP sends for `o`: the `paos:Request` block
/// (naming the ECP service), the `ecp:Request` block and, with a relay
/// state, the `ecp:RelayState` block.
pub open spec fn sp_envelope_text(o: EcpAuthnRequestOptions) -> Seq<char> {
    soap_envelope_text(
        o.authn_request_xml@,
        Some(
            paos_request_text(o.response_consumer_url@, Some(ECP_NS@), opt_str_view(o.message_id)) + ecp_request_text(
                Some(o.sp_entity_id@),
                opt_str_view(o.provider_name),
                o.is_passive,
                strings_view(o.idp_list@),
            ) + opt_relay_state_text(opt_str_view(o.relay_state)),
        ),
    )
}

/// Builds the SP's phase-one PAOS envelope carrying the `AuthnRequest`. An
/// empty SP entity ID is `MissingIssuer`; an empty `responseConsumerURL` is
/// an error too.
pub fn create_ecp_authn_request_envelope(options: &EcpAuthnRequestOptions<'_>) -> (r: Result<String, ProfileError>)
    ensures
        options.sp_entity_id@.len() == 0 ==> r matches Err(ProfileError::MissingIssuer),
        options.sp_entity_id@.len() > 0 && options.response_consumer_url@.len() == 0 ==> (r matches Err(
            ProfileError::Other(m),
        ) && m@ == "responseConsumerURL must not be empty"@),
        options.sp_entity_id@.len() > 0 && options.response_consumer_url@.len() > 0 ==> (r matches Ok(s) && s@
            == sp_envelope_text(*options)),
{
    if options.sp_entity_id.is_empty() {
        return Err(ProfileError::MissingIssuer);
    }
    if options.response_consumer_url.is_empty() {
        return Err(ProfileError::Other(to_owned_string("responseConsumerURL must not be empty")));
    }
    let paos_request = PaosRequest {
        response_consumer_url: to_owned_string(options.response_consumer_url),
        service: Some(to_owned_string(ECP_NS)),
        message_id: opt_str_to_owned(options.message_id),
    };
    let ecp_request = paos::EcpRequest {
        issuer: Some(to_owned_string(options.sp_entity_id)),
        provider_name: opt_str_to_owned(options.provider_name),
        is_passive: options.is_passive,
        idp_list: strings_clone(options.idp_list),
    };
    let out = match options.relay_state {
        Some(rs) => {
            let block = EcpRelayState { relay_state: to_owned_string(rs) };
            build_ecp_phase1_envelope(options.authn_request_xml, &ecp_request, &paos_request, Some(&block))
        },
        None => build_ecp_phase1_envelope(options.authn_request_xml, &ecp_request, &paos_request, None),
    };
    Ok(out)
}

/// The phase-two envelope as the SP reads it.
pub struct EcpSpResponse {
    /// The SAML `Response` from the body.
    pub response_xml: String,
    /// The relay state echoed by the ECP.
    pub relay_state: Option<String>,
}

/// Reads the phase-two PAOS envelope at the SP: the `Response` from the
/// body and the echoed relay state. A SOAP fault is an error.
pub fn parse_ecp_response_at_sp(soap_xml: &[u8]) -> (r: Result<EcpSpResponse, ProfileError>)
    ensures
        match envelope_reading(soap_xml@) {
            Ok(v) => r matches Ok(s) && s.response_xml@ == v.body_xml && opt_string_view(s.relay_state)
                == v.relay_state,
            Err(e) => r matches Err(pe) && error_is(pe, e),
        },
{
    let envelope = parse_envelope(soap_xml)?;
    Ok(EcpSpResponse { response_xml: envelope.body_xml, relay_state: envelope.relay_state })
}

/// The phase-one envelope as the enhanced client reads it, with the state
/// needed to finish the conversation.
pub struct EcpRequest {
    /// The `AuthnRequest` to forward to the IdP.
    pub authn_request_xml: String,
    /// Where the SP requires the response (`paos:Request`
    /// `responseConsumerURL`).
    pub response_consumer_url: String,
    /// The PAOS message ID, echoed back as `refToMessageID`.
    pub message_id: Option<String>,
    /// The SP entity ID.
    pub issuer: Option<String>,
    /// The SP's human-readable name.
    pub provider_name: Option<String>,
    /// Whether the SP requires passive authentication.
    pub is_passive: Option<bool>,
    /// The relay state to echo back to the SP.
    pub relay_state: Option<String>,
    /// IdP entity IDs the ECP may choose from.
    pub idp_list: Vec<String>,
}

/// Whether `q` is the client state for the envelope reading `v`, whose
/// `paos:Request` block gave `rcu` and `mid` and whose `ecp:Request` block
/// gave `h`.
pub open spec fn client_state_of(q: EcpRequest, v: EnvelopeView, rcu: Seq<char>, mid: Option<Seq<char>>, h: EcpHeaderView) -> bool {
    &&& q.authn_request_xml@ == v.body_xml
    &&& q.response_consumer_url@ == rcu
    &&& opt_string_view(q.message_id) == mid
    &&& opt_string_view(q.issuer) == h.issuer
    &&& opt_string_view(q.provider_name) == h.provider_name
    &&& q.is_passive == h.is_passive
    &&& opt_string_view(q.relay_state) == v.relay_state
    &&& strings_view(q.idp_list@) == h.idp_list
}

/// Reads the SP's phase-one PAOS envelope at the enhanced client. Without a
/// `paos:Request` block it is `MissingPaosHeader`; without an `ecp:Request`
/// block, `EcpMissingRequestHeader`.
pub fn parse_ecp_authn_request_envelope(soap_xml: &[u8]) -> (r: Result<EcpRequest, ProfileError>)
    ensures
        match envelope_reading(soap_xml@) {
            Err(e) => r matches Err(pe) && error_is(pe, e),
            Ok(v) => match v.paos_request {
                None => r matches Err(ProfileError::MissingPaosHeader),
                Some((rcu, mid)) => match v.ecp_request {
                    None => r matches Err(ProfileError::EcpMissingRequestHeader),
                    Some(h) => r matches Ok(q) && client_state_of(q, v, rcu, mid, h),
                },
            },
        },
{
    let envelope = parse_envelope(soap_xml)?;
    let ParsedEcpEnvelope { body_xml, paos_request, ecp_request, ecp_response_acs_url: _, relay_state, bodies: _ } =
        envelope;
    let (response_consumer_url, message_id) = match paos_request {
        Some(p) => p,
        None => return Err(ProfileError::MissingPaosHeader),
    };
    let header = match ecp_request {
        Some(h) => h,
        None => return Err(ProfileError::EcpMissingRequestHeader),
    };
    Ok(EcpRequest {
        authn_request_xml: body_xml,
        response_consumer_url,
        message_id,
        issuer: header.issuer,
        provider_name: header.provider_name,
        is_passive: header.is_passive,
        relay_state,
        idp_list: header.idp_list,
    })
}

/// The phase-two delivery the enhanced client produces.
pub struct EcpRelay {
    /// Where to POST the envelope (the checked ACS URL).
    pub destination_url: String,
    /// The phase-two PAOS envelope.
    pub envelope: String,
    /// The content type of the POST.
    pub content_type: &'static str,
}

impl EcpRequest {
    /// The plain SOAP envelope to POST to the IdP's SOAP endpoint.
    pub fn idp_soap_envelope(&self) -> (r: String)
        ensures
            r@ == soap_envelope_text(self.authn_request_xml@, None),
    {
        soap_envelope_wrap(self.authn_request_xml.as_str(), None)
    }

    /// Reads the IdP's SOAP response and builds the phase-two envelope for
    /// the SP. The IdP's `ecp:Response` ACS URL must equal the SP's
    /// `responseConsumerURL` (else `EcpAcsUrlMismatch`, and the caller must
    /// send the SP a SOAP fault instead); without that block it is
    /// `EcpMissingResponseHeader`.
    pub fn process_idp_response(&self, soap_xml: &[u8]) -> (r: Result<EcpRelay, ProfileError>)
        ensures
            match envelope_reading(soap_xml@) {
                Err(e) => r matches Err(pe) && error_is(pe, e),
                Ok(v) => match v.ecp_response_acs_url {
                    None => r matches Err(ProfileError::EcpMissingResponseHeader),
                    Some(acs) => if acs != self.response_consumer_url@ {
                        r matches Err(ProfileError::EcpAcsUrlMismatch)
                    } else {
                        r matches Ok(relay) && relay.destination_url@ == acs && relay.envelope@
                            == phase2_envelope_text(
                            v.body_xml,
                            opt_string_view(self.message_id),
                            opt_string_view(self.relay_state),
                        ) && relay.content_type@ == PAOS_CONTENT_TYPE@
                    },
                },
            },
    {
        let envelope = parse_envelope(soap_xml)?;
        let acs_url = match envelope.ecp_response_acs_url {
            Some(a) => a,
            None => return Err(ProfileError::EcpMissingResponseHeader),
        };
        verify_acs_url_match(acs_url.as_str(), self.response_consumer_url.as_str())?;
        let paos_response = PaosResponse {
            ref_to_message_id: match &self.message_id {
                Some(m) => Some(to_owned_string(m.as_str())),
                None => None,
            },
        };
        let out = match &self.relay_state {
            Some(rs) => {
                let block = EcpRelayState { relay_state: to_owned_string(rs.as_str()) };
                build_ecp_phase2_envelope(envelope.body_xml.as_str(), &paos_response, Some(&block))
            },
            None => build_ecp_phase2_envelope(envelope.body_xml.as_str(), &paos_response, None),
        };
        Ok(EcpRelay { destination_url: acs_url, envelope: out, content_type: PAOS_CONTENT_TYPE })
    }
}

/// The value of the `PAOS` header an ECP client sends: the PAOS version and
/// the ECP service.
pub open spec fn paos_header_value() -> Seq<char> {
    "ver=\""@ + PAOS_NS@ + "\";\""@ + ECP_NS@ + "\""@
}

/// The HTTP headers an ECP client sends with its first request to the SP:
/// `Accept` with the PAOS media type and `PAOS` with the version and
/// service.
pub fn ecp_client_http_headers() -> (r: [(&'static str, String); 2])
    ensures
        r@[0].0@ == "Accept"@,
        r@[0].1@ == ECP_ACCEPT_HEADER@,
        r@[1].0@ == "PAOS"@,
        r@[1].1@ == paos_header_value(),
{
    let accept = to_owned_string(ECP_ACCEPT_HEADER);
    let mut paos_value = to_owned_string("ver=\"");
    push_str(&mut paos_value, PAOS_NS);
    push_str(&mut paos_value, "\";\"");
    push_str(&mut paos_value, ECP_NS);
    push_str(&mut paos_value, "\"");
    [("Accept", accept), ("PAOS", paos_value)]
}

/// The SOAP fault envelope the ECP delivers to the SP when it cannot finish
/// the conversation (such as on an ACS URL mismatch).
pub fn ecp_fault_envelope(reason: &str) -> (r: String)
    ensures
        r@ == soap_envelope_text(soap_fault_body_text("soap:Server"@, reason@, None), None),
{
    soap_fault("soap:Server", reason, None)
}

/// The `AuthnRequest` from the ECP's SOAP request at the IdP (the single
/// body element; header blocks are not needed).
pub fn parse_idp_ecp_request(soap_xml: &[u8]) -> (r: Result<String, ProfileError>)
    ensures
        match envelope_reading(soap_xml@) {
            Ok(v) => r matches Ok(s) && s@ == v.body_xml,
            Err(e) => r matches Err(pe) && error_is(pe, e),
        },
{
    let envelope = parse_envelope(soap_xml)?;
    Ok(envelope.body_xml)
}

/// Wraps the IdP's `Response` in the SOAP envelope for the ECP, with an
/// `ecp:Response` block naming the ACS URL the ECP must check. An empty ACS
/// URL is an error.
pub fn create_ecp_response_envelope(response_xml: &str, acs_url: &str) -> (r: Result<String, ProfileError>)
    ensures
        acs_url@.len() == 0 ==> (r matches Err(ProfileError::Other(m)) && m@
            == "AssertionConsumerServiceURL must not be empty"@),
        acs_url@.len() > 0 ==> (r matches Ok(s) && s@ == soap_envelope_text(
            response_xml@,
            Some(ecp_response_text(acs_url@)),
        )),
{
    if acs_url.is_empty() {
        return Err(ProfileError::Other(to_owned_string("AssertionConsumerServiceURL must not be empty")));
    }
    let header = ecp_response_header_xml(&EcpResponse { assertion_consumer_service_url: to_owned_string(acs_url) });
    Ok(soap_envelope_wrap(response_xml, Some(header.as_str())))
}

/// Checks that the ACS URL of the IdP's `ecp:Response` equals the SP's PAOS
/// `responseConsumerURL`.
pub fn verify_acs_url_match(ecp_acs_url: &str, paos_response_consumer_url: &str) -> (r: Result<(), ProfileError>)
    ensures
        r is Ok <==> ecp_acs_url@ == paos_response_consumer_url@,
        r is Err ==> r matches Err(ProfileError::EcpAcsUrlMismatch),
{
    if !str_eq(ecp_acs_url, paos_response_consumer_url) {
        Err(ProfileError::EcpAcsUrlMismatch)
    } else {
        Ok(())
    }
}

/// Whether an optional header value contains `needle`.
pub open spec fn header_has(h: Option<&str>, needle: Seq<char>) -> bool {
    match h {
        Some(v) => seq_contains(v@, needle),
        None => false,
    }
}

/// Whether an HTTP request comes from an ECP client: its `Accept` header
/// names the PAOS media type and its `PAOS` header the PAOS version.
pub fn is_ecp_request(accept_header: Option<&str>, paos_header: Option<&str>) -> (r: bool)
    ensures
        r == (header_has(accept_header, "application/vnd.paos+xml"@) && header_has(paos_header, "urn:liberty:paos:2003-08"@)),
{
    let has_paos_accept = match accept_header {
        Some(h) => str_contains(h, "application/vnd.paos+xml"),
        None => false,
    };
    let has_paos_version = match paos_header {
        Some(h) => str_contains(h, "urn:liberty:paos:2003-08"),
        None => false,
    };
    has_paos_accept && has_paos_version
}

/// The ECP's IdP list from an `AuthnRequest`'s scoping list, as it is.
pub fn extract_idp_list(authn_request_scoping_idp_list: &[String]) -> (r: Vec<String>)
    ensures
        strings_view(r@) == strings_view(authn_request_scoping_idp_list@),
{
    strings_clone(authn_request_scoping_idp_list)
}

// ── Reading an envelope, stated ────────────────────────────────────────────

/// What an `ecp:Request` header block says.
pub struct EcpHeaderView {
    /// The trimmed text of its `saml:Issuer`.
    pub issuer: Option<Seq<char>>,
    /// Its `ProviderName`.
    pub provider_name: Option<Seq<char>>,
    /// Whether its `IsPassive` is `true` or `1`, when present.
    pub is_passive: Option<bool>,
    /// The `ProviderID`s of its IdP list.
    pub idp_list: Seq<Seq<char>>,
}

/// What has been read of an envelope.
pub struct EnvelopeView {
    /// The serialized body element.
    pub body_xml: Seq<char>,
    /// The `paos:Request` block's `responseConsumerURL` and `messageID`.
    pub paos_request: Option<(Seq<char>, Option<Seq<char>>)>,
    /// The `ecp:Request` block.
    pub ecp_request: Option<EcpHeaderView>,
    /// The `ecp:Response` block's ACS URL.
    pub ecp_response_acs_url: Option<Seq<char>>,
    /// The `ecp:RelayState` block's text.
    pub relay_state: Option<Seq<char>>,
    /// The number of bodies seen.
    pub bodies: nat,
}

/// Why an envelope was refused.
pub enum EnvelopeError {
    /// A `paos:Request` block without `responseConsumerURL`.
    MissingPaosHeader,
    /// Any other refusal, with its message.
    Other(Seq<char>),
}

/// Whether the profile error `pe` is the refusal `e`.
pub open spec fn error_is(pe: ProfileError, e: EnvelopeError) -> bool {
    match e {
        EnvelopeError::MissingPaosHeader => pe is MissingPaosHeader,
        EnvelopeError::Other(m) => pe matches ProfileError::Other(s) && s@ == m,
    }
}

/// The first character-data child among `cs`.
pub open spec fn first_text(cs: Seq<XmlNode>) -> Option<Seq<char>>
    decreases cs.len(),
{
    if cs.len() == 0 {
        None
    } else {
        match cs[0] {
            XmlNode::Text(t) => Some(t@),
            _ => first_text(cs.drop_first()),
        }
    }
}

/// The `ProviderID`s of the `samlp:IDPEntry` children among `cs`, in order.
pub open spec fn idp_entry_ids(cs: Seq<XmlNode>) -> Seq<Seq<char>>
    decreases cs.len(),
{
    if cs.len() == 0 {
        Seq::empty()
    } else {
        let rest = idp_entry_ids(cs.drop_last());
        match cs.last() {
            XmlNode::Element(e) => if is_element(e, SAMLP_NS@, "IDPEntry"@) {
                match attribute_value(e.attributes@, "ProviderID"@) {
                    Some(p) => rest.push(p),
                    None => rest,
                }
            } else {
                rest
            },
            _ => rest,
        }
    }
}

/// What the `ecp:Request` block `e` says.
pub open spec fn ecp_header_of(e: XmlElement) -> EcpHeaderView {
    EcpHeaderView {
        issuer: match first_child_element(e.children@, SAML_ASSERTION_NS@, "Issuer"@) {
            Some(i) => match first_text(i.children@) {
                Some(t) => Some(trim(t)),
                None => None,
            },
            None => None,
        },
        provider_name: attribute_value(e.attributes@, "ProviderName"@),
        is_passive: match attribute_value(e.attributes@, "IsPassive"@) {
            Some(v) => Some(v == "true"@ || v == "1"@),
            None => None,
        },
        idp_list: match first_child_element(e.children@, SAMLP_NS@, "IDPList"@) {
            Some(l) => idp_entry_ids(l.children@),
            None => Seq::empty(),
        },
    }
}

/// The reading after the header block `n`; a later block of a kind
/// replaces an earlier one.
pub open spec fn header_block(s: EnvelopeView, n: XmlNode) -> Result<EnvelopeView, EnvelopeError> {
    match n {
        XmlNode::Element(e) => if is_element(e, PAOS_NS@, "Request"@) {
            match attribute_value(e.attributes@, "responseConsumerURL"@) {
                None => Err(EnvelopeError::MissingPaosHeader),
                Some(rcu) => Ok(
                    EnvelopeView { paos_request: Some((rcu, attribute_value(e.attributes@, "messageID"@))), ..s },
                ),
            }
        } else if is_element(e, ECP_NS@, "Request"@) {
            Ok(EnvelopeView { ecp_request: Some(ecp_header_of(e)), ..s })
        } else if is_element(e, ECP_NS@, "Response"@) {
            Ok(EnvelopeView { ecp_response_acs_url: attribute_value(e.attributes@, "AssertionConsumerServiceURL"@), ..s })
        } else if is_element(e, ECP_NS@, "RelayState"@) {
            Ok(EnvelopeView { relay_state: first_text(e.children@), ..s })
        } else {
            Ok(s)
        },
        _ => Ok(s),
    }
}

/// The reading after the header blocks `cs`, stopping at the first refusal.
pub open spec fn header_blocks(s: EnvelopeView, cs: Seq<XmlNode>) -> Result<EnvelopeView, EnvelopeError>
    decreases cs.len(),
{
    if cs.len() == 0 {
        Ok(s)
    } else {
        match header_blocks(s, cs.drop_last()) {
            Ok(s1) => header_block(s1, cs.last()),
            Err(e) => Err(e),
        }
    }
}

/// The serialization an element carries, or nothing.
pub open spec fn markup_text(e: XmlElement) -> Seq<char> {
    match e.markup {
        Some(m) => m@,
        None => Seq::empty(),
    }
}

/// The reading after the body children `cs`, with the number of elements
/// met: a `soap:Fault` is refused with its trimmed text, a second element
/// is refused, the one element is kept serialized.
pub open spec fn body_children(s: EnvelopeView, k: nat, cs: Seq<XmlNode>) -> Result<(EnvelopeView, nat), EnvelopeError>
    decreases cs.len(),
{
    if cs.len() == 0 {
        Ok((s, k))
    } else {
        match body_children(s, k, cs.drop_last()) {
            Err(e) => Err(e),
            Ok((s1, k1)) => match cs.last() {
                XmlNode::Element(c) => if is_element(c, SOAP11_NS@, "Fault"@) {
                    Err(EnvelopeError::Other("SOAP fault in ECP envelope: "@ + trim(node_deep_text(cs.last()))))
                } else if k1 >= 1 {
                    Err(EnvelopeError::Other("SOAP Body must contain exactly one element"@))
                } else {
                    Ok((EnvelopeView { body_xml: markup_text(c), ..s1 }, k1 + 1))
                },
                _ => Ok((s1, k1)),
            },
        }
    }
}

/// The reading after the envelope child `n`: header blocks are read, a
/// second body is refused, other children are skipped.
pub open spec fn envelope_child(s: EnvelopeView, n: XmlNode) -> Result<EnvelopeView, EnvelopeError> {
    match n {
        XmlNode::Element(e) => if is_element(e, SOAP11_NS@, "Header"@) {
            header_blocks(s, e.children@)
        } else if is_element(e, SOAP11_NS@, "Body"@) {
            if s.bodies >= 1 {
                Err(EnvelopeError::Other("SOAP Envelope must contain exactly one Body"@))
            } else {
                match body_children(EnvelopeView { bodies: s.bodies + 1, ..s }, 0, e.children@) {
                    Ok((s1, _)) => Ok(s1),
                    Err(x) => Err(x),
                }
            }
        } else {
            Ok(s)
        },
        _ => Ok(s),
    }
}

/// The reading after the envelope children `cs`, stopping at the first
/// refusal.
pub open spec fn envelope_children(s: EnvelopeView, cs: Seq<XmlNode>) -> Result<EnvelopeView, EnvelopeError>
    decreases cs.len(),
{
    if cs.len() == 0 {
        Ok(s)
    } else {
        match envelope_children(s, cs.drop_last()) {
            Ok(s1) => envelope_child(s1, cs.last()),
            Err(e) => Err(e),
        }
    }
}

/// Nothing read yet.
pub open spec fn empty_envelope() -> EnvelopeView {
    EnvelopeView {
        body_xml: Seq::empty(),
        paos_request: None,
        ecp_request: None,
        ecp_response_acs_url: None,
        relay_state: None,
        bodies: 0,
    }
}

/// An optional namespace, or the empty text.
pub open spec fn namespace_text(ns: Option<String>) -> Seq<char> {
    match ns {
        Some(n) => n@,
        None => Seq::empty(),
    }
}

/// The reading of the envelope text `t`: it must parse, its root must be a
/// SOAP 1.1 `Envelope`, its children are read in order, and a body element
/// must have been found.
pub open spec fn envelope_text_reading(t: Seq<char>) -> Result<EnvelopeView, EnvelopeError> {
    match parsed_document_with_markup(t) {
        None => match xml_parse_error_message(t) {
            Some(m) => Err(EnvelopeError::Other("envelope XML parse error: "@ + m)),
            None => Err(EnvelopeError::Other("envelope has no root element"@)),
        },
        Some(root) => if !is_element(root, SOAP11_NS@, "Envelope"@) {
            Err(
                EnvelopeError::Other(
                    "expected SOAP 1.1 Envelope, got {"@ + namespace_text(root.namespace) + "}"@ + root.local_name@,
                ),
            )
        } else {
            match envelope_children(empty_envelope(), root.children@) {
                Err(e) => Err(e),
                Ok(s) => if s.body_xml.len() == 0 {
                    Err(EnvelopeError::Other("no SAML element in SOAP Body"@))
                } else {
                    Ok(s)
                },
            }
        },
    }
}

/// The reading of the envelope bytes: they must be UTF-8, and the text is
/// read by [`envelope_text_reading`].
pub open spec fn envelope_reading(bytes: Seq<u8>) -> Result<EnvelopeView, EnvelopeError> {
    if !valid_utf8(bytes) {
        Err(EnvelopeError::Other("envelope is not valid UTF-8: "@ + utf8_error_text(bytes)))
    } else {
        envelope_text_reading(decode_utf8(bytes))
    }
}

// ── Reading an envelope ────────────────────────────────────────────────────

/// A parsed `ecp:Request` block.
pub struct EcpRequestHeader {
    /// The `saml:Issuer` text.
    pub issuer: Option<String>,
    /// The `ProviderName` attribute.
    pub provider_name: Option<String>,
    /// The `IsPassive` attribute.
    pub is_passive: Option<bool>,
    /// The `ProviderID`s of the `IDPList` entries.
    pub idp_list: Vec<String>,
}

/// The ECP-relevant parts of an envelope read so far.
pub struct ParsedEcpEnvelope {
    /// The markup of the SAML element in the Body.
    pub body_xml: String,
    /// The `paos:Request` block's `responseConsumerURL` and `messageID`.
    pub paos_request: Option<(String, Option<String>)>,
    /// The `ecp:Request` block.
    pub ecp_request: Option<EcpRequestHeader>,
    /// The `ecp:Response` block's `AssertionConsumerServiceURL`.
    pub ecp_response_acs_url: Option<String>,
    /// The `ecp:RelayState` text.
    pub relay_state: Option<String>,
    /// How many Body elements were read.
    pub bodies: usize,
}

impl ParsedEcpEnvelope {
    /// An envelope of which nothing has been read yet.
    pub fn empty() -> (r: Self)
        ensures
            parsed_view(r) == empty_envelope(),
    {
        ParsedEcpEnvelope {
            body_xml: String::new(),
            paos_request: None,
            ecp_request: None,
            ecp_response_acs_url: None,
            relay_state: None,
            bodies: 0,
        }
    }
}

/// The abstract view of a parsed `ecp:Request` block.
pub open spec fn header_view(h: EcpRequestHeader) -> EcpHeaderView {
    EcpHeaderView {
        issuer: opt_string_view(h.issuer),
        provider_name: opt_string_view(h.provider_name),
        is_passive: h.is_passive,
        idp_list: strings_view(h.idp_list@),
    }
}

/// The abstract view of an envelope read so far.
pub open spec fn parsed_view(p: ParsedEcpEnvelope) -> EnvelopeView {
    EnvelopeView {
        body_xml: p.body_xml@,
        paos_request: match p.paos_request {
            Some((a, b)) => Some((a@, opt_string_view(b))),
            None => None,
        },
        ecp_request: match p.ecp_request {
            Some(h) => Some(header_view(h)),
            None => None,
        },
        ecp_response_acs_url: opt_string_view(p.ecp_response_acs_url),
        relay_state: opt_string_view(p.relay_state),
        bodies: p.bodies as nat,
    }
}

/// Whether `r` is the outcome `o` of reading an envelope.
pub open spec fn outcome_is(r: Result<ParsedEcpEnvelope, ProfileError>, o: Result<EnvelopeView, EnvelopeError>) -> bool {
    match o {
        Ok(v) => r matches Ok(p) && parsed_view(p) == v,
        Err(e) => r matches Err(pe) && error_is(pe, e),
    }
}

/// The text of the first character-data child of `e`.
fn first_text_child(e: &XmlElement) -> (r: Option<String>)
    ensures
        opt_string_view(r) == first_text(e.children@),
{
    let mut i: usize = 0;
    assert(e.children@.skip(0) =~= e.children@);
    while i < e.children.len()
        invariant
            0 <= i <= e.children.len(),
            first_text(e.children@) == first_text(e.children@.skip(i as int)),
        decreases e.children.len() - i,
    {
        assert(e.children@.skip(i as int).drop_first() =~= e.children@.skip(i + 1));
        assert(e.children@.skip(i as int)[0] == e.children@[i as int]);
        match &e.children[i] {
            XmlNode::Text(t) => {
                return Some(to_owned_string(t.as_str()));
            },
            _ => {},
        }
        i = i + 1;
    }
    None
}

/// The `ProviderID`s of the `samlp:IDPEntry` children of `list`.
fn idp_entries_of(list: &XmlElement) -> (r: Vec<String>)
    ensures
        strings_view(r@) == idp_entry_ids(list.children@),
{
    let mut out: Vec<String> = Vec::new();
    let mut i: usize = 0;
    while i < list.children.len()
        invariant
            0 <= i <= list.children.len(),
            strings_view(out@) == idp_entry_ids(list.children@.take(i as int)),
        decreases list.children.len() - i,
    {
        assert(list.children@.take(i + 1).drop_last() =~= list.children@.take(i as int));
        match &list.children[i] {
            XmlNode::Element(c) => {
                if element_is(c, SAMLP_NS, "IDPEntry") {
                    match get_attribute(c, "ProviderID") {
                        Some(p) => {
                            proof {
                                lemma_strings_view_push(out@, p);
                            }
                            out.push(p);
                        },
                        None => {},
                    }
                }
            },
            _ => {},
        }
        i = i + 1;
    }
    assert(list.children@.take(i as int) =~= list.children@);
    out
}

/// Reads an `ecp:Request` block.
fn read_ecp_header(e: &XmlElement) -> (r: EcpRequestHeader)
    ensures
        header_view(r) == ecp_header_of(*e),
{
    let issuer = match find_first_child(e, SAML_ASSERTION_NS, "Issuer") {
        Some(i) => match first_text_child(i) {
            Some(t) => {
                let cs = chars_of(t.as_str());
                let trimmed = trim_chars(cs.as_slice());
                Some(string_of(trimmed.as_slice()))
            },
            None => None,
        },
        None => None,
    };
    let is_passive = match get_attribute(e, "IsPassive") {
        Some(v) => Some(str_eq(v.as_str(), "true") || str_eq(v.as_str(), "1")),
        None => None,
    };
    let idp_list = match find_first_child(e, SAMLP_NS, "IDPList") {
        Some(l) => idp_entries_of(l),
        None => Vec::new(),
    };
    let h = EcpRequestHeader { issuer, provider_name: get_attribute(e, "ProviderName"), is_passive, idp_list };
    assert(header_view(h).idp_list =~= ecp_header_of(*e).idp_list);
    h
}

/// Reads one header block.
fn header_step(p: ParsedEcpEnvelope, n: &XmlNode) -> (r: Result<ParsedEcpEnvelope, ProfileError>)
    ensures
        outcome_is(r, header_block(parsed_view(p), *n)),
{
    let mut p = p;
    match n {
        XmlNode::Element(e) => {
            if element_is(e, PAOS_NS, "Request") {
                match get_attribute(e, "responseConsumerURL") {
                    Some(rcu) => {
                        let mid = get_attribute(e, "messageID");
                        p.paos_request = Some((rcu, mid));
                        Ok(p)
                    },
                    None => Err(ProfileError::MissingPaosHeader),
                }
            } else if element_is(e, ECP_NS, "Request") {
                p.ecp_request = Some(read_ecp_header(e));
                Ok(p)
            } else if element_is(e, ECP_NS, "Response") {
                p.ecp_response_acs_url = get_attribute(e, "AssertionConsumerServiceURL");
                Ok(p)
            } else if element_is(e, ECP_NS, "RelayState") {
                p.relay_state = first_text_child(e);
                Ok(p)
            } else {
                Ok(p)
            }
        },
        _ => Ok(p),
    }
}

/// A refusal in a prefix of the header blocks is the refusal of them all.
proof fn lemma_header_blocks_err(s: EnvelopeView, cs: Seq<XmlNode>, k: int)
    requires
        0 <= k <= cs.len(),
        header_blocks(s, cs.take(k)) is Err,
    ensures
        header_blocks(s, cs) == header_blocks(s, cs.take(k)),
    decreases cs.len() - k,
{
    if k < cs.len() {
        assert(cs.take(k + 1).drop_last() =~= cs.take(k));
        lemma_header_blocks_err(s, cs, k + 1);
    } else {
        assert(cs.take(k) =~= cs);
    }
}

/// Reads the header blocks of `header`, in order.
fn parse_header_blocks(start: ParsedEcpEnvelope, header: &XmlElement) -> (r: Result<ParsedEcpEnvelope, ProfileError>)
    ensures
        outcome_is(r, header_blocks(parsed_view(start), header.children@)),
{
    let ghost s0 = parsed_view(start);
    let mut p = start;
    let mut i: usize = 0;
    assert(header.children@.take(0) =~= Seq::<XmlNode>::empty());
    while i < header.children.len()
        invariant
            0 <= i <= header.children.len(),
            s0 == parsed_view(start),
            header_blocks(s0, header.children@.take(i as int)) == Ok::<EnvelopeView, EnvelopeError>(parsed_view(p)),
        decreases header.children.len() - i,
    {
        assert(header.children@.take(i + 1).drop_last() =~= header.children@.take(i as int));
        assert(header.children@.take(i + 1).last() == header.children@[i as int]);
        let ghost before = parsed_view(p);
        match header_step(p, &header.children[i]) {
            Ok(q) => {
                p = q;
            },
            Err(e) => {
                proof {
                    assert(header_blocks(s0, header.children@.take(i + 1)) == header_block(before, header.children@[i as int]));
                    lemma_header_blocks_err(s0, header.children@, i + 1);
                }
                return Err(e);
            },
        }
        i = i + 1;
    }
    assert(header.children@.take(i as int) =~= header.children@);
    Ok(p)
}

/// A refusal in a prefix of the body children is the refusal of them all.
proof fn lemma_body_children_err(s: EnvelopeView, k0: nat, cs: Seq<XmlNode>, k: int)
    requires
        0 <= k <= cs.len(),
        body_children(s, k0, cs.take(k)) is Err,
    ensures
        body_children(s, k0, cs) == body_children(s, k0, cs.take(k)),
    decreases cs.len() - k,
{
    if k < cs.len() {
        assert(cs.take(k + 1).drop_last() =~= cs.take(k));
        lemma_body_children_err(s, k0, cs, k + 1);
    } else {
        assert(cs.take(k) =~= cs);
    }
}

/// Reads the children of `body`.
fn read_body(start: ParsedEcpEnvelope, body: &XmlElement) -> (r: Result<ParsedEcpEnvelope, ProfileError>)
    ensures
        match body_children(parsed_view(start), 0, body.children@) {
            Ok((v, _)) => r matches Ok(q) && parsed_view(q) == v,
            Err(e) => r matches Err(pe) && error_is(pe, e),
        },
{
    let ghost s0 = parsed_view(start);
    let mut p = start;
    let mut count: usize = 0;
    let mut i: usize = 0;
    assert(body.children@.take(0) =~= Seq::<XmlNode>::empty());
    while i < body.children.len()
        invariant
            0 <= i <= body.children.len(),
            count <= 1,
            s0 == parsed_view(start),
            body_children(s0, 0, body.children@.take(i as int)) == Ok::<(EnvelopeView, nat), EnvelopeError>(
                (parsed_view(p), count as nat),
            ),
        decreases body.children.len() - i,
    {
        assert(body.children@.take(i + 1).drop_last() =~= body.children@.take(i as int));
        assert(body.children@.take(i + 1).last() == body.children@[i as int]);
        match &body.children[i] {
            XmlNode::Element(c) => {
                if element_is(c, SOAP11_NS, "Fault") {
                    let mut deep: Vec<char> = Vec::new();
                    collect_deep_text(&body.children[i], &mut deep);
                    assert(deep@ =~= node_deep_text(body.children@[i as int]));
                    let trimmed = trim_chars(deep.as_slice());
                    let mut m = to_owned_string("SOAP fault in ECP envelope: ");
                    let t = string_of(trimmed.as_slice());
                    push_str(&mut m, t.as_str());
                    proof {
                        assert(body_children(s0, 0, body.children@.take(i + 1)) == Err::<(EnvelopeView, nat), EnvelopeError>(
                            EnvelopeError::Other("SOAP fault in ECP envelope: "@ + trim(node_deep_text(body.children@[i as int]))),
                        ));
                        lemma_body_children_err(s0, 0, body.children@, i + 1);
                    }
                    return Err(ProfileError::Other(m));
                }
                if count >= 1 {
                    proof {
                        assert(body_children(s0, 0, body.children@.take(i + 1)) == Err::<(EnvelopeView, nat), EnvelopeError>(
                            EnvelopeError::Other("SOAP Body must contain exactly one element"@),
                        ));
                        lemma_body_children_err(s0, 0, body.children@, i + 1);
                    }
                    return Err(ProfileError::Other(to_owned_string("SOAP Body must contain exactly one element")));
                }
                p.body_xml = match &c.markup {
                    Some(m) => to_owned_string(m.as_str()),
                    None => String::new(),
                };
                count = count + 1;
            },
            _ => {},
        }
        i = i + 1;
    }
    assert(body.children@.take(i as int) =~= body.children@);
    Ok(p)
}

/// Reads one child of the SOAP envelope into `p`: a Header's blocks, or
/// the single Body's SAML element (see `envelope_child`).
pub fn envelope_step(p: ParsedEcpEnvelope, n: &XmlNode) -> (r: Result<ParsedEcpEnvelope, ProfileError>)
    ensures
        outcome_is(r, envelope_child(parsed_view(p), *n)),
{
    let mut p = p;
    match n {
        XmlNode::Element(e) => {
            if element_is(e, SOAP11_NS, "Header") {
                parse_header_blocks(p, e)
            } else if element_is(e, SOAP11_NS, "Body") {
                if p.bodies >= 1 {
                    return Err(ProfileError::Other(to_owned_string("SOAP Envelope must contain exactly one Body")));
                }
                p.bodies = p.bodies + 1;
                read_body(p, e)
            } else {
                Ok(p)
            }
        },
        _ => Ok(p),
    }
}

/// A refusal in a prefix of the envelope children is the refusal of them all.
proof fn lemma_envelope_children_err(s: EnvelopeView, cs: Seq<XmlNode>, k: int)
    requires
        0 <= k <= cs.len(),
        envelope_children(s, cs.take(k)) is Err,
    ensures
        envelope_children(s, cs) == envelope_children(s, cs.take(k)),
    decreases cs.len() - k,
{
    if k < cs.len() {
        assert(cs.take(k + 1).drop_last() =~= cs.take(k));
        lemma_envelope_children_err(s, cs, k + 1);
    } else {
        assert(cs.take(k) =~= cs);
    }
}

/// Reads an envelope from its bytes.
fn parse_envelope(soap_xml: &[u8]) -> (r: Result<ParsedEcpEnvelope, ProfileError>)
    ensures
        outcome_is(r, envelope_reading(soap_xml@)),
{
    match utf8_error(soap_xml) {
        Some(e) => {
            let mut m = to_owned_string("envelope is not valid UTF-8: ");
            push_str(&mut m, e.as_str());
            return Err(ProfileError::Other(m));
        },
        None => {},
    }
    let bytes = vstd::slice::slice_to_vec(soap_xml);
    let text = match string_from_utf8(bytes) {
        Some(t) => t,
        None => {
            return Err(ProfileError::Other(to_owned_string("envelope is not valid UTF-8")));
        },
    };
    proof {
        encode_utf8_decode_utf8(text@);
    }
    let root = match parse_xml_with_markup(text.as_str()) {
        Some(root) => root,
        None => {
            return match xml_parse_error(text.as_str()) {
                Some(e) => {
                    let mut m = to_owned_string("envelope XML parse error: ");
                    push_str(&mut m, e.as_str());
                    Err(ProfileError::Other(m))
                },
                None => Err(ProfileError::Other(to_owned_string("envelope has no root element"))),
            };
        },
    };
    if !element_is(&root, SOAP11_NS, "Envelope") {
        let mut m = to_owned_string("expected SOAP 1.1 Envelope, got {");
        match &root.namespace {
            Some(n) => push_str(&mut m, n.as_str()),
            None => {},
        }
        push_str(&mut m, "}");
        push_str(&mut m, root.local_name.as_str());
        assert(m@ =~= "expected SOAP 1.1 Envelope, got {"@ + namespace_text(root.namespace) + "}"@
            + root.local_name@);
        return Err(ProfileError::Other(m));
    }
    let mut p = ParsedEcpEnvelope::empty();
    let mut i: usize = 0;
    assert(root.children@.take(0) =~= Seq::<XmlNode>::empty());
    assert(parsed_view(p) == empty_envelope());
    while i < root.children.len()
        invariant
            0 <= i <= root.children.len(),
            valid_utf8(soap_xml@),
            decode_utf8(soap_xml@) == text@,
            parsed_document_with_markup(text@) == Some(root),
            is_element(root, SOAP11_NS@, "Envelope"@),
            envelope_children(empty_envelope(), root.children@.take(i as int)) == Ok::<EnvelopeView, EnvelopeError>(
                parsed_view(p),
            ),
        decreases root.children.len() - i,
    {
        assert(root.children@.take(i + 1).drop_last() =~= root.children@.take(i as int));
        assert(root.children@.take(i + 1).last() == root.children@[i as int]);
        let ghost before = parsed_view(p);
        match envelope_step(p, &root.children[i]) {
            Ok(q) => {
                p = q;
            },
            Err(e) => {
                proof {
                    assert(envelope_children(empty_envelope(), root.children@.take(i + 1)) == envelope_child(before, root.children@[i as int]));
                    lemma_envelope_children_err(empty_envelope(), root.children@, i + 1);
                }
                return Err(e);
            },
        }
        i = i + 1;
    }
    assert(root.children@.take(i as int) =~= root.children@);
    if p.body_xml.as_str().is_empty() {
        return Err(ProfileError::Other(to_owned_string("no SAML element in SOAP Body")));
    }
    Ok(p)
}

} // verus!
