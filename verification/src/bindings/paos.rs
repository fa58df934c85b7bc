//! The PAOS binding's SOAP header blocks and the ECP profile's own header
//! blocks (`ecp:Request`, `ecp:Response`, `ecp:RelayState`), and the two
//! envelopes of an ECP conversation that carry them.

use vstd::prelude::*;
use crate::bindings::soap::{soap_envelope_text, soap_envelope_wrap};
use crate::text::{opt_string_view, push_str, strings_view, to_owned_string};
use crate::markup::{escape_attr, escape_text, escaped_attr, escaped_text};

verus! {

/// The PAOS namespace (and the version an ECP client advertises).
pub const PAOS_NS: &'static str = "urn:liberty:paos:2003-08";

/// The ECP profile namespace (also the PAOS service it names).
pub const ECP_NS: &'static str = "urn:oasis:names:tc:SAML:2.0:profiles:SSO:ecp";

/// The media type of a PAOS message.
pub const PAOS_CONTENT_TYPE: &'static str = "application/vnd.paos+xml";

/// The attributes every header block carries: it must be understood, by the
/// next SOAP node.
pub const HEADER_ROLE: &'static str = " soap:mustUnderstand=\"1\" soap:actor=\"http://schemas.xmlsoap.org/soap/actor/next\"";

/// The `paos:Request` header block.
pub struct PaosRequest {
    /// Where the response must be delivered.
    pub response_consumer_url: String,
    /// The service the request belongs to.
    pub service: Option<String>,
    /// The message ID to correlate the response with.
    pub message_id: Option<String>,
}

/// The `ecp:Request` header block.
pub struct EcpRequest {
    /// The SP's entity ID.
    pub issuer: Option<String>,
    /// The SP's human-readable name.
    pub provider_name: Option<String>,
    /// Whether the IdP must not interact with the user.
    pub is_passive: bool,
    /// IdP entity IDs the ECP may use.
    pub idp_list: Vec<String>,
}

/// The `ecp:RelayState` header block.
pub struct EcpRelayState {
    /// The relay state to echo.
    pub relay_state: String,
}

/// The `paos:Response` header block.
pub struct PaosResponse {
    /// The message ID of the request answered.
    pub ref_to_message_id: Option<String>,
}

/// The `ecp:Response` header block.
pub struct EcpResponse {
    /// The ACS URL the IdP addressed the response to.
    pub assertion_consumer_service_url: String,
}

/// The text ` name="value"`, the value escaped.
pub open spec fn attr_text(name: Seq<char>, value: Seq<char>) -> Seq<char> {
    " "@ + name + "=\""@ + escaped_attr(value) + "\""@
}

/// `attr_text` when there is a value, else nothing.
pub open spec fn opt_attr_text(name: Seq<char>, value: Option<Seq<char>>) -> Seq<char> {
    match value {
        Some(v) => attr_text(name, v),
        None => Seq::empty(),
    }
}

/// Appends ` name="value"` with the value escaped.
fn push_attr(out: &mut String, name: &str, value: &str)
    ensures
        final(out)@ == old(out)@ + attr_text(name@, value@),
{
    push_str(out, " ");
    push_str(out, name);
    push_str(out, "=\"");
    let v = escape_attr(value);
    push_str(out, v.as_str());
    push_str(out, "\"");
}

/// Appends ` name="value"` when there is a value.
fn push_opt_attr(out: &mut String, name: &str, value: &Option<String>)
    ensures
        final(out)@ == old(out)@ + opt_attr_text(name@, opt_string_view(*value)),
{
    match value {
        Some(v) => push_attr(out, name, v.as_str()),
        None => {
            assert(out@ =~= out@ + Seq::<char>::empty());
        },
    }
}

/// The text of a `paos:Request` header block.
pub open spec fn paos_request_text(response_consumer_url: Seq<char>, service: Option<Seq<char>>, message_id: Option<Seq<char>>) -> Seq<char> {
    "<paos:Request xmlns:paos=\""@ + PAOS_NS@ + "\""@ + HEADER_ROLE@ + attr_text("responseConsumerURL"@, response_consumer_url)
        + opt_attr_text("service"@, service) + opt_attr_text("messageID"@, message_id) + "/>"@
}

/// The text of the `paos:Request` block `h`.
pub open spec fn paos_request_view(h: PaosRequest) -> Seq<char> {
    paos_request_text(h.response_consumer_url@, opt_string_view(h.service), opt_string_view(h.message_id))
}

/// Serializes a `paos:Request` header block.
pub fn paos_request_header_xml(h: &PaosRequest) -> (r: String)
    ensures
        r@ == paos_request_view(*h),
{
    let mut out = to_owned_string("<paos:Request xmlns:paos=\"");
    push_str(&mut out, PAOS_NS);
    push_str(&mut out, "\"");
    push_str(&mut out, HEADER_ROLE);
    push_attr(&mut out, "responseConsumerURL", h.response_consumer_url.as_str());
    push_opt_attr(&mut out, "service", &h.service);
    push_opt_attr(&mut out, "messageID", &h.message_id);
    push_str(&mut out, "/>");
    out
}

/// The `samlp:IDPEntry` elements for the given provider IDs, in order.
pub open spec fn idp_entries_text(ids: Seq<Seq<char>>) -> Seq<char>
    decreases ids.len(),
{
    if ids.len() == 0 {
        Seq::empty()
    } else {
        idp_entries_text(ids.drop_last()) + "<samlp:IDPEntry"@ + attr_text("ProviderID"@, ids.last()) + "/>"@
    }
}

/// The text of an `ecp:Request` header block.
pub open spec fn ecp_request_text(
    issuer: Option<Seq<char>>,
    provider_name: Option<Seq<char>>,
    is_passive: bool,
    idp_list: Seq<Seq<char>>,
) -> Seq<char> {
    "<ecp:Request xmlns:ecp=\""@ + ECP_NS@ + "\""@ + HEADER_ROLE@ + opt_attr_text("ProviderName"@, provider_name)
        + attr_text(
        "IsPassive"@,
        if is_passive {
            "true"@
        } else {
            "false"@
        },
    ) + ">"@ + match issuer {
        Some(i) => "<saml:Issuer xmlns:saml=\"urn:oasis:names:tc:SAML:2.0:assertion\">"@ + escaped_text(i)
            + "</saml:Issuer>"@,
        None => Seq::empty(),
    } + if idp_list.len() > 0 {
        "<samlp:IDPList xmlns:samlp=\"urn:oasis:names:tc:SAML:2.0:protocol\">"@ + idp_entries_text(idp_list)
            + "</samlp:IDPList>"@
    } else {
        Seq::empty()
    } + "</ecp:Request>"@
}

/// The text of the `ecp:Request` block `h`.
pub open spec fn ecp_request_view(h: EcpRequest) -> Seq<char> {
    ecp_request_text(opt_string_view(h.issuer), opt_string_view(h.provider_name), h.is_passive, strings_view(h.idp_list@))
}

/// Serializes an `ecp:Request` header block: the issuer and the IdP list
/// appear only when present.
pub fn ecp_request_header_xml(h: &EcpRequest) -> (r: String)
    ensures
        r@ == ecp_request_view(*h),
{
    let mut out = to_owned_string("<ecp:Request xmlns:ecp=\"");
    push_str(&mut out, ECP_NS);
    push_str(&mut out, "\"");
    push_str(&mut out, HEADER_ROLE);
    push_opt_attr(&mut out, "ProviderName", &h.provider_name);
    push_attr(&mut out, "IsPassive", if h.is_passive { "true" } else { "false" });
    push_str(&mut out, ">");
    let ghost before_issuer = out@;
    match &h.issuer {
        Some(i) => {
            push_str(&mut out, "<saml:Issuer xmlns:saml=\"urn:oasis:names:tc:SAML:2.0:assertion\">");
            let t = escape_text(i.as_str());
            push_str(&mut out, t.as_str());
            push_str(&mut out, "</saml:Issuer>");
        },
        None => {
            assert(out@ =~= out@ + Seq::<char>::empty());
        },
    }
    if h.idp_list.len() > 0 {
        push_str(&mut out, "<samlp:IDPList xmlns:samlp=\"urn:oasis:names:tc:SAML:2.0:protocol\">");
        let ghost start = out@;
        let mut i: usize = 0;
        while i < h.idp_list.len()
            invariant
                0 <= i <= h.idp_list.len(),
                out@ == start + idp_entries_text(strings_view(h.idp_list@).take(i as int)),
            decreases h.idp_list.len() - i,
        {
            assert(strings_view(h.idp_list@).take(i + 1).drop_last() =~= strings_view(h.idp_list@).take(i as int));
            push_str(&mut out, "<samlp:IDPEntry");
            push_attr(&mut out, "ProviderID", h.idp_list[i].as_str());
            push_str(&mut out, "/>");
            i = i + 1;
        }
        assert(strings_view(h.idp_list@).take(i as int) =~= strings_view(h.idp_list@));
        push_str(&mut out, "</samlp:IDPList>");
    } else {
        assert(out@ =~= out@ + Seq::<char>::empty());
    }
    push_str(&mut out, "</ecp:Request>");
    out
}

/// The text of an `ecp:RelayState` header block.
pub open spec fn relay_state_text(relay_state: Seq<char>) -> Seq<char> {
    "<ecp:RelayState xmlns:ecp=\""@ + ECP_NS@ + "\""@ + HEADER_ROLE@ + ">"@ + escaped_text(relay_state)
        + "</ecp:RelayState>"@
}

/// Serializes an `ecp:RelayState` header block.
pub fn ecp_relay_state_header_xml(h: &EcpRelayState) -> (r: String)
    ensures
        r@ == relay_state_text(h.relay_state@),
{
    let mut out = to_owned_string("<ecp:RelayState xmlns:ecp=\"");
    push_str(&mut out, ECP_NS);
    push_str(&mut out, "\"");
    push_str(&mut out, HEADER_ROLE);
    push_str(&mut out, ">");
    let t = escape_text(h.relay_state.as_str());
    push_str(&mut out, t.as_str());
    push_str(&mut out, "</ecp:RelayState>");
    out
}

/// The text of a `paos:Response` header block.
pub open spec fn paos_response_text(ref_to_message_id: Option<Seq<char>>) -> Seq<char> {
    "<paos:Response xmlns:paos=\""@ + PAOS_NS@ + "\""@ + HEADER_ROLE@ + opt_attr_text("refToMessageID"@, ref_to_message_id)
        + "/>"@
}

/// Serializes a `paos:Response` header block.
pub fn paos_response_header_xml(h: &PaosResponse) -> (r: String)
    ensures
        r@ == paos_response_text(opt_string_view(h.ref_to_message_id)),
{
    let mut out = to_owned_string("<paos:Response xmlns:paos=\"");
    push_str(&mut out, PAOS_NS);
    push_str(&mut out, "\"");
    push_str(&mut out, HEADER_ROLE);
    push_opt_attr(&mut out, "refToMessageID", &h.ref_to_message_id);
    push_str(&mut out, "/>");
    out
}

/// The text of an `ecp:Response` header block.
pub open spec fn ecp_response_text(assertion_consumer_service_url: Seq<char>) -> Seq<char> {
    "<ecp:Response xmlns:ecp=\""@ + ECP_NS@ + "\""@ + HEADER_ROLE@ + attr_text(
        "AssertionConsumerServiceURL"@,
        assertion_consumer_service_url,
    ) + "/>"@
}

/// Serializes an `ecp:Response` header block.
pub fn ecp_response_header_xml(h: &EcpResponse) -> (r: String)
    ensures
        r@ == ecp_response_text(h.assertion_consumer_service_url@),
{
    let mut out = to_owned_string("<ecp:Response xmlns:ecp=\"");
    push_str(&mut out, ECP_NS);
    push_str(&mut out, "\"");
    push_str(&mut out, HEADER_ROLE);
    push_attr(&mut out, "AssertionConsumerServiceURL", h.assertion_consumer_service_url.as_str());
    push_str(&mut out, "/>");
    out
}

/// The relay-state block's text, or nothing.
pub open spec fn opt_relay_state_text(rs: Option<Seq<char>>) -> Seq<char> {
    match rs {
        Some(r) => relay_state_text(r),
        None => Seq::empty(),
    }
}

/// The relay state carried by an optional block.
pub open spec fn relay_view(rs: Option<&EcpRelayState>) -> Option<Seq<char>> {
    match rs {
        Some(h) => Some(h.relay_state@),
        None => None,
    }
}

/// The SP's phase-one envelope: the request in the body, and the
/// `paos:Request`, `ecp:Request` and (optional) `ecp:RelayState` blocks in
/// the header.
pub open spec fn phase1_envelope_text(
    authn_request_xml: Seq<char>,
    paos_block: Seq<char>,
    ecp_block: Seq<char>,
    rs: Option<Seq<char>>,
) -> Seq<char> {
    soap_envelope_text(authn_request_xml, Some(paos_block + ecp_block + opt_relay_state_text(rs)))
}

/// Builds the SP's phase-one PAOS envelope carrying `authn_request_xml`.
pub fn build_ecp_phase1_envelope(
    authn_request_xml: &str,
    ecp_request: &EcpRequest,
    paos_request: &PaosRequest,
    relay_state: Option<&EcpRelayState>,
) -> (r: String)
    ensures
        r@ == phase1_envelope_text(
            authn_request_xml@,
            paos_request_view(*paos_request),
            ecp_request_view(*ecp_request),
            relay_view(relay_state),
        ),
{
    let mut header = paos_request_header_xml(paos_request);
    let e = ecp_request_header_xml(ecp_request);
    push_str(&mut header, e.as_str());
    match relay_state {
        Some(rs) => {
            let t = ecp_relay_state_header_xml(rs);
            push_str(&mut header, t.as_str());
        },
        None => {
            assert(header@ =~= header@ + Seq::<char>::empty());
        },
    }
    soap_envelope_wrap(authn_request_xml, Some(header.as_str()))
}

/// The ECP's phase-two envelope: the response in the body, the
/// `paos:Response` and (optional) `ecp:RelayState` blocks in the header.
pub open spec fn phase2_envelope_text(response_xml: Seq<char>, ref_to_message_id: Option<Seq<char>>, rs: Option<Seq<char>>) -> Seq<char> {
    soap_envelope_text(response_xml, Some(paos_response_text(ref_to_message_id) + opt_relay_state_text(rs)))
}

/// Builds the ECP's phase-two PAOS envelope carrying `response_xml`.
pub fn build_ecp_phase2_envelope(
    response_xml: &str,
    paos_response: &PaosResponse,
    relay_state: Option<&EcpRelayState>,
) -> (r: String)
    ensures
        r@ == phase2_envelope_text(response_xml@, opt_string_view(paos_response.ref_to_message_id), relay_view(relay_state)),
{
    let mut header = paos_response_header_xml(paos_response);
    match relay_state {
        Some(rs) => {
            let t = ecp_relay_state_header_xml(rs);
            push_str(&mut header, t.as_str());
        },
        None => {
            assert(header@ =~= header@ + Seq::<char>::empty());
        },
    }
    soap_envelope_wrap(response_xml, Some(header.as_str()))
}

} // verus!
