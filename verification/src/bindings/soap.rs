//! The SOAP 1.1 envelope that carries SAML messages over the SOAP and PAOS
//! bindings.

use vstd::prelude::*;
use crate::text::{push_str, to_owned_string};
use crate::markup::{escape_text, escaped_text};

verus! {

/// The SOAP 1.1 envelope namespace.
pub const SOAP11_NS: &'static str = "http://schemas.xmlsoap.org/soap/envelope/";

/// The opening of an envelope, binding the `soap` prefix.
pub const ENVELOPE_OPEN: &'static str = "<soap:Envelope xmlns:soap=\"http://schemas.xmlsoap.org/soap/envelope/\">";

/// The text of an envelope around `body`, with a `soap:Header` holding
/// `header` when there is one.
pub open spec fn soap_envelope_text(body: Seq<char>, header: Option<Seq<char>>) -> Seq<char> {
    ENVELOPE_OPEN@ + match header {
        Some(h) => "<soap:Header>"@ + h + "</soap:Header>"@,
        None => Seq::empty(),
    } + "<soap:Body>"@ + body + "</soap:Body></soap:Envelope>"@
}

/// Wraps the serialized `body_xml` (and header blocks, if any) in a SOAP 1.1
/// envelope. Both are inserted as they are.
pub fn soap_envelope_wrap(body_xml: &str, header_xml: Option<&str>) -> (r: String)
    ensures
        r@ == soap_envelope_text(body_xml@, match header_xml {
            Some(h) => Some(h@),
            None => None,
        }),
{
    let mut out = to_owned_string(ENVELOPE_OPEN);
    match header_xml {
        Some(h) => {
            push_str(&mut out, "<soap:Header>");
            push_str(&mut out, h);
            push_str(&mut out, "</soap:Header>");
        },
        None => {},
    }
    push_str(&mut out, "<soap:Body>");
    push_str(&mut out, body_xml);
    push_str(&mut out, "</soap:Body></soap:Envelope>");
    out
}

/// The text of a `soap:Fault` with the given code and reason (escaped as
/// text) and optional detail markup.
pub open spec fn soap_fault_body_text(code: Seq<char>, reason: Seq<char>, detail: Option<Seq<char>>) -> Seq<char> {
    "<soap:Fault><faultcode>"@ + escaped_text(code) + "</faultcode><faultstring>"@ + escaped_text(reason)
        + "</faultstring>"@ + match detail {
        Some(d) => "<detail>"@ + d + "</detail>"@,
        None => Seq::empty(),
    } + "</soap:Fault>"@
}

/// An envelope whose body is a SOAP 1.1 fault with `fault_code`,
/// `fault_string` and, when given, the `detail` markup.
pub fn soap_fault(fault_code: &str, fault_string: &str, detail: Option<&str>) -> (r: String)
    ensures
        r@ == soap_envelope_text(soap_fault_body_text(fault_code@, fault_string@, match detail {
            Some(d) => Some(d@),
            None => None,
        }), None),
{
    let mut body = to_owned_string("<soap:Fault><faultcode>");
    let code = escape_text(fault_code);
    push_str(&mut body, code.as_str());
    push_str(&mut body, "</faultcode><faultstring>");
    let reason = escape_text(fault_string);
    push_str(&mut body, reason.as_str());
    push_str(&mut body, "</faultstring>");
    match detail {
        Some(d) => {
            push_str(&mut body, "<detail>");
            push_str(&mut body, d);
            push_str(&mut body, "</detail>");
        },
        None => {},
    }
    push_str(&mut body, "</soap:Fault>");
    soap_envelope_wrap(body.as_str(), None)
}

} // verus!
