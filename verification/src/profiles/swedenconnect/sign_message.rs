//! SignMessage [SC.DSS.Ext] and SADRequest [SC.SAP] AuthnRequest extensions,
//! used for "Authentication for Signature" (section 7).

use vstd::prelude::*;
use crate::encoding::{base64_encoding, base64_standard_encode, utf8_bytes};
use vstd::utf8::encode_utf8;
use crate::text::{decimal_string_u64, decimal_text, to_owned_string};
use crate::markup::pairs_view;
use crate::xml_writer::{end_element_markup, start_element_markup, text_markup, XmlBuffer};
use super::constants;

verus! {

/// The MIME type of a sign message (section 7.1.1).
#[derive(Debug, Clone, Copy, PartialEq, Eq, Structural)]
pub enum SignMessageMimeType {
    /// Plain text (`text`).
    Text,
    /// HTML (`text/html`).
    Html,
    /// Markdown (`text/markdown`).
    Markdown,
}

/// The `MimeType` attribute value of a MIME type.
pub open spec fn mime_type_text(m: SignMessageMimeType) -> Seq<char> {
    match m {
        SignMessageMimeType::Text => "text"@,
        SignMessageMimeType::Html => "text/html"@,
        SignMessageMimeType::Markdown => "text/markdown"@,
    }
}

impl SignMessageMimeType {
    /// The MIME type string used in the `MimeType` attribute.
    pub fn as_str(self) -> (r: &'static str)
        ensures
            r@ == mime_type_text(self),
    {
        match self {
            SignMessageMimeType::Text => "text",
            SignMessageMimeType::Html => "text/html",
            SignMessageMimeType::Markdown => "text/markdown",
        }
    }
}

/// A `<csig:SignMessage>` element to be carried in the `<saml2p:Extensions>` of
/// an `AuthnRequest` from a Signature Service (section 7.1.1).
///
/// Identity Providers compliant with the profile MUST be able to parse this
/// extension and, when `must_show` is set, MUST fail with an error if the
/// message cannot be displayed.
#[derive(Debug, Clone, PartialEq, Eq)]
pub struct SignMessage {
    /// The `DisplayEntity` — the entityID of the IdP expected to display the
    /// message.
    pub display_entity: Option<String>,
    /// The MIME type of the message.
    pub mime_type: Option<SignMessageMimeType>,
    /// Whether the message MUST be displayed (`MustShow`).
    pub must_show: bool,
    /// The Base64-encoded message content (the body of `<csig:Message>`), or,
    /// when `encrypted`, the `<xenc:EncryptedData>` element.
    pub message_base64: String,
    /// Whether `message_base64` holds an encrypted message
    /// (`<csig:EncryptedMessage>` rather than `<csig:Message>`).
    pub encrypted: bool,
}

/// The attributes of `<csig:SignMessage>`: the namespace declaration, then
/// `DisplayEntity`, `MimeType` and `MustShow="true"` when present.
pub open spec fn sign_message_attrs(sm: SignMessage) -> Seq<(Seq<char>, Seq<char>)> {
    seq![("xmlns:csig"@, constants::NS_DSS_EXT@)] + match sm.display_entity {
        Some(de) => seq![("DisplayEntity"@, de@)],
        None => Seq::empty(),
    } + match sm.mime_type {
        Some(mt) => seq![("MimeType"@, mime_type_text(mt))],
        None => Seq::empty(),
    } + if sm.must_show {
        seq![("MustShow"@, "true"@)]
    } else {
        Seq::empty()
    }
}

/// The element holding the message body.
pub open spec fn message_element(sm: SignMessage) -> Seq<char> {
    if sm.encrypted {
        "csig:EncryptedMessage"@
    } else {
        "csig:Message"@
    }
}

/// The serialized `<csig:SignMessage>`: an encrypted body is written verbatim
/// (it is markup), a Base64 body is escaped as text.
pub open spec fn sign_message_xml(sm: SignMessage) -> Seq<char> {
    start_element_markup("csig:SignMessage"@, sign_message_attrs(sm)) + start_element_markup(
        message_element(sm),
        Seq::empty(),
    ) + (if sm.encrypted {
        sm.message_base64@
    } else {
        text_markup(sm.message_base64@)
    }) + end_element_markup(message_element(sm)) + end_element_markup("csig:SignMessage"@)
}

impl SignMessage {
    /// Build a cleartext sign message from a UTF-8 string, Base64-encoding it.
    pub fn cleartext(
        message: &str,
        mime_type: SignMessageMimeType,
        must_show: bool,
        display_entity: Option<String>,
    ) -> (r: Self)
        ensures
            r.display_entity == display_entity,
            r.mime_type == Some(mime_type),
            r.must_show == must_show,
            r.message_base64@ == base64_encoding(false, true, encode_utf8(message@)),
            !r.encrypted,
    {
        let bytes = utf8_bytes(message);
        SignMessage {
            display_entity,
            mime_type: Some(mime_type),
            must_show,
            message_base64: base64_standard_encode(bytes.as_slice()),
            encrypted: false,
        }
    }

    /// Serialize the `<csig:SignMessage>` element (namespace-qualified).
    pub fn to_xml_string(&self) -> (r: String)
        ensures
            r@ == sign_message_xml(*self),
    {
        let mut w = XmlBuffer::new();
        let mut attrs: Vec<(&str, &str)> = Vec::new();
        attrs.push(("xmlns:csig", constants::NS_DSS_EXT));
        let ghost a0 = pairs_view(attrs@);
        assert(a0 =~= seq![("xmlns:csig"@, constants::NS_DSS_EXT@)]);
        if let Some(de) = &self.display_entity {
            attrs.push(("DisplayEntity", de.as_str()));
        }
        let ghost a1 = pairs_view(attrs@);
        assert(a1 =~= a0 + match self.display_entity {
            Some(de) => seq![("DisplayEntity"@, de@)],
            None => Seq::<(Seq<char>, Seq<char>)>::empty(),
        });
        if let Some(mt) = self.mime_type {
            attrs.push(("MimeType", mt.as_str()));
        }
        let ghost a2 = pairs_view(attrs@);
        assert(a2 =~= a1 + match self.mime_type {
            Some(mt) => seq![("MimeType"@, mime_type_text(mt))],
            None => Seq::<(Seq<char>, Seq<char>)>::empty(),
        });
        if self.must_show {
            attrs.push(("MustShow", "true"));
        }
        assert(pairs_view(attrs@) =~= sign_message_attrs(*self));
        w.start_element("csig:SignMessage", attrs.as_slice());
        let elem = if self.encrypted {
            "csig:EncryptedMessage"
        } else {
            "csig:Message"
        };
        let none: [(&str, &str); 0] = [];
        assert(pairs_view(none@) =~= Seq::<(Seq<char>, Seq<char>)>::empty());
        w.start_element(elem, &none);
        if self.encrypted {
            w.raw(self.message_base64.as_str());
        } else {
            w.text(self.message_base64.as_str());
        }
        w.end_element(elem);
        w.end_element("csig:SignMessage");
        let r = w.into_string();
        assert(r@ =~= sign_message_xml(*self));
        r
    }
}

/// A `<sap:SADRequest>` element requesting Signature Activation Data for SCAL2
/// (section 7.1.2). MUST be accompanied by a [`SignMessage`].
#[derive(Debug, Clone, PartialEq, Eq)]
pub struct SadRequest {
    /// The unique ID of this SAD request.
    pub id: String,
    /// The entityID of the Signature Requestor.
    pub requester_id: String,
    /// The ID of the `<SignRequest>` that triggered this authentication.
    pub sign_request_id: String,
    /// The number of documents to be signed.
    pub doc_count: u32,
    /// The requested SAP version (e.g. `1.0`).
    pub requested_version: String,
}

/// `<name>text</name>` as the writer produces it.
pub open spec fn text_child(name: Seq<char>, text: Seq<char>) -> Seq<char> {
    start_element_markup(name, Seq::empty()) + text_markup(text) + end_element_markup(name)
}

/// The serialized `<sap:SADRequest>`.
pub open spec fn sad_request_xml(s: SadRequest) -> Seq<char> {
    start_element_markup("sap:SADRequest"@, seq![("xmlns:sap"@, constants::NS_SAP@), ("ID"@, s.id@)])
        + text_child("sap:RequesterID"@, s.requester_id@)
        + text_child("sap:SignRequestID"@, s.sign_request_id@)
        + text_child("sap:DocCount"@, decimal_text(s.doc_count as nat))
        + text_child("sap:RequestedVersion"@, s.requested_version@)
        + end_element_markup("sap:SADRequest"@)
}

/// Writes `<name>text</name>`.
fn write_text_child(w: &mut XmlBuffer, name: &str, text: &str)
    ensures
        final(w)@ == old(w)@ + text_child(name@, text@),
{
    let ghost start = w@;
    let none: [(&str, &str); 0] = [];
    assert(pairs_view(none@) =~= Seq::<(Seq<char>, Seq<char>)>::empty());
    w.start_element(name, &none);
    w.text(text);
    w.end_element(name);
    assert(w@ =~= start + text_child(name@, text@));
}

impl SadRequest {
    /// Create a SAD request with `RequestedVersion` defaulting to `1.0`.
    pub fn new(id: &str, requester_id: &str, sign_request_id: &str, doc_count: u32) -> (r: Self)
        ensures
            r.id@ == id@,
            r.requester_id@ == requester_id@,
            r.sign_request_id@ == sign_request_id@,
            r.doc_count == doc_count,
            r.requested_version@ == "1.0"@,
    {
        SadRequest {
            id: to_owned_string(id),
            requester_id: to_owned_string(requester_id),
            sign_request_id: to_owned_string(sign_request_id),
            doc_count,
            requested_version: to_owned_string("1.0"),
        }
    }

    /// Serialize the `<sap:SADRequest>` element (namespace-qualified).
    pub fn to_xml_string(&self) -> (r: String)
        ensures
            r@ == sad_request_xml(*self),
    {
        let mut w = XmlBuffer::new();
        let attrs: [(&str, &str); 2] = [("xmlns:sap", constants::NS_SAP), ("ID", self.id.as_str())];
        assert(pairs_view(attrs@) =~= seq![("xmlns:sap"@, constants::NS_SAP@), ("ID"@, self.id@)]);
        w.start_element("sap:SADRequest", &attrs);
        write_text_child(&mut w, "sap:RequesterID", self.requester_id.as_str());
        write_text_child(&mut w, "sap:SignRequestID", self.sign_request_id.as_str());
        let count = decimal_string_u64(self.doc_count as u64);
        write_text_child(&mut w, "sap:DocCount", count.as_str());
        write_text_child(&mut w, "sap:RequestedVersion", self.requested_version.as_str());
        w.end_element("sap:SADRequest");
        let r = w.into_string();
        assert(r@ =~= sad_request_xml(*self));
        r
    }
}

} // verus!
