//! SP-side AuthnRequest construction (section 5).
//!
//! Builds a profile-conformant `<saml2p:AuthnRequest>` on top of the Web
//! Browser SSO SP profile, applying the Sweden Connect constraints:
//!
//! - explicit `ForceAuthn` (section 5.3), always on for a Signature Service,
//! - `Destination` MUST be present (section 5.3 / 5.4.1),
//! - `AssertionConsumerServiceURL` xor `AssertionConsumerServiceIndex` (5.3),
//! - `<saml2p:RequestedAuthnContext>` with exact comparison (5.3.1),
//! - the configured NameID format (persistent by default, section 3),
//! - response delivered via HTTP-POST.
//!
//! The `SignMessage`, `SADRequest` and `PrincipalSelection` extensions are
//! returned as a serialized `<saml2p:Extensions>` block, to be spliced into
//! the serialized request after the Issuer, before signing.

use vstd::prelude::*;
use crate::profiles::sso::sp::create_authn_request;
use crate::profiles::sso::web_browser::{AuthnRequestOptions, BINDING_HTTP_POST};
use crate::protocol::{
    is_entity_issuer, is_generated_id, opt_string_clone, AuthnContextComparison, AuthnRequest,
    RequestedAuthnContext, SamlVersion, Scoping,
};
use crate::text::{opt_string_view, strings_clone, strings_view, to_owned_string, trim, trim_chars, chars_of};
use crate::markup::pairs_view;
use crate::xml_writer::{end_element_markup, start_element_markup, XmlBuffer};
use super::config::{SwedenConnectConfig, SwedenConnectRole};
use super::constants;
use super::error::SwedenConnectError;
use super::metadata::concat_all;
use super::principal_selection::{principal_selection_xml, PrincipalSelection};
use super::sign_message::{sad_request_xml, sign_message_xml, SadRequest, SignMessage};

verus! {

/// Options for building a Sweden Connect `AuthnRequest`.
#[derive(Debug, Clone)]
pub struct SwedenConnectAuthnOptions {
    /// The IdP `SingleSignOnService` URL the request is sent to. Required — it
    /// becomes the `Destination` attribute (section 5.4.1).
    pub destination: String,
    /// The desired `AssertionConsumerServiceURL`. Mutually exclusive with
    /// [`acs_index`](Self::acs_index).
    pub acs_url: Option<String>,
    /// The desired `AssertionConsumerServiceIndex`. Mutually exclusive with
    /// [`acs_url`](Self::acs_url).
    pub acs_index: Option<u16>,
    /// The explicit `ForceAuthn` value (section 5.3 recommends always setting
    /// it explicitly to avoid accidental SSO).
    pub force_authn: bool,
    /// The `IsPassive` value (optional).
    pub is_passive: Option<bool>,
    /// Whether to allow creation of a new identifier (`NameIDPolicy/@AllowCreate`).
    pub allow_create: bool,
    /// `AttributeConsumingServiceIndex` (section 5.3).
    pub attribute_consuming_service_index: Option<u16>,
    /// `<saml2p:Scoping>/<saml2p:IDPList>` entity IDs (section 5.3.2).
    pub scoping_idp_list: Vec<String>,
    /// `<saml2p:Scoping>/<saml2p:RequesterID>` entity IDs (section 7.1).
    pub requester_ids: Vec<String>,
    /// `<saml2p:Scoping>/@ProxyCount`.
    pub proxy_count: Option<u32>,
    /// A `<psc:PrincipalSelection>` extension (sections 5.3.3, 7.1).
    pub principal_selection: Option<PrincipalSelection>,
    /// A `<csig:SignMessage>` extension (section 7.1.1) — Signature Service only.
    pub sign_message: Option<SignMessage>,
    /// A `<sap:SADRequest>` extension (section 7.1.2) — Signature Service only.
    pub sad_request: Option<SadRequest>,
}

/// Options with nothing set but the destination, `ForceAuthn` and
/// `AllowCreate`.
pub open spec fn is_plain_options(o: SwedenConnectAuthnOptions, destination: Seq<char>, force: bool, create: bool) -> bool {
    &&& o.destination@ == destination
    &&& o.acs_url is None
    &&& o.acs_index is None
    &&& o.force_authn == force
    &&& o.is_passive is None
    &&& o.allow_create == create
    &&& o.attribute_consuming_service_index is None
    &&& o.scoping_idp_list.len() == 0
    &&& o.requester_ids.len() == 0
    &&& o.proxy_count is None
    &&& o.principal_selection is None
    &&& o.sign_message is None
    &&& o.sad_request is None
}

impl Default for SwedenConnectAuthnOptions {
    /// Empty options: no destination, nothing requested.
    fn default() -> (r: Self)
        ensures
            is_plain_options(r, Seq::empty(), false, false),
    {
        SwedenConnectAuthnOptions {
            destination: String::new(),
            acs_url: None,
            acs_index: None,
            force_authn: false,
            is_passive: None,
            allow_create: false,
            attribute_consuming_service_index: None,
            scoping_idp_list: Vec::new(),
            requester_ids: Vec::new(),
            proxy_count: None,
            principal_selection: None,
            sign_message: None,
            sad_request: None,
        }
    }
}

impl SwedenConnectAuthnOptions {
    /// Construct options targeting `destination`, with `ForceAuthn` on and a
    /// freshly creatable identifier requested.
    pub fn to(destination: &str) -> (r: Self)
        ensures
            is_plain_options(r, destination@, true, true),
    {
        let mut o = Self::default();
        o.destination = to_owned_string(destination);
        o.force_authn = true;
        o.allow_create = true;
        o
    }
}

/// A built Sweden Connect authentication request.
#[derive(Debug, Clone)]
pub struct SwedenConnectAuthnRequest {
    /// The typed `AuthnRequest`.
    pub request: AuthnRequest,
    /// The serialized `<saml2p:Extensions>` block, if any extension was
    /// requested; it goes right after the `<saml2:Issuer>` element.
    pub extensions_xml: Option<String>,
}

/// The `<saml2p:Extensions>` block holding the fragments, none when there
/// are no fragments.
pub open spec fn request_extensions_text(fragments: Seq<Seq<char>>) -> Option<Seq<char>> {
    if fragments.len() == 0 {
        None
    } else {
        Some(
            start_element_markup("saml2p:Extensions"@, seq![("xmlns:saml2p"@, constants::NS_SAML_PROTOCOL@)]) + concat_all(
                fragments,
            ) + end_element_markup("saml2p:Extensions"@),
        )
    }
}

/// Combine extension element fragments into a single `<saml2p:Extensions>`
/// block, or return `None` if there are no fragments.
pub fn request_extensions_xml(fragments: &[String]) -> (r: Option<String>)
    ensures
        opt_string_view(r) == request_extensions_text(strings_view(fragments@)),
{
    if fragments.len() == 0 {
        return None;
    }
    let mut w = XmlBuffer::new();
    let ns: [(&str, &str); 1] = [("xmlns:saml2p", constants::NS_SAML_PROTOCOL)];
    assert(pairs_view(ns@) =~= seq![("xmlns:saml2p"@, constants::NS_SAML_PROTOCOL@)]);
    w.start_element("saml2p:Extensions", &ns);
    let ghost head = w@;
    let mut i: usize = 0;
    while i < fragments.len()
        invariant
            i <= fragments.len(),
            w@ == head + concat_all(strings_view(fragments@).subrange(0, i as int)),
        decreases fragments.len() - i,
    {
        w.raw(fragments[i].as_str());
        assert(strings_view(fragments@).subrange(0, i + 1).drop_last() =~= strings_view(fragments@).subrange(0, i as int));
        i = i + 1;
    }
    assert(strings_view(fragments@).subrange(0, i as int) =~= strings_view(fragments@));
    w.end_element("saml2p:Extensions");
    Some(w.into_string())
}

/// The extension fragments a request carries: SignMessage, SADRequest, then
/// PrincipalSelection, each when given.
pub open spec fn request_fragments(o: SwedenConnectAuthnOptions) -> Seq<Seq<char>> {
    (match o.sign_message {
        Some(sm) => seq![sign_message_xml(sm)],
        None => Seq::empty(),
    }) + (match o.sad_request {
        Some(sad) => seq![sad_request_xml(sad)],
        None => Seq::empty(),
    }) + (match o.principal_selection {
        Some(ps) => seq![principal_selection_xml(ps)],
        None => Seq::empty(),
    })
}

/// The message when the destination is missing.
pub const MISSING_DESTINATION_MESSAGE: &'static str = "Destination is required (section 5.4.1)";

/// The message when both ACS URL and index are given.
pub const ACS_CONFLICT_MESSAGE: &'static str = "AssertionConsumerServiceURL and AssertionConsumerServiceIndex are mutually exclusive (section 5.3)";

/// The AuthnRequest built for `cfg` and `opts` (its ID and instant aside).
pub open spec fn is_sc_authn_request(r: AuthnRequest, cfg: SwedenConnectConfig, opts: SwedenConnectAuthnOptions) -> bool {
    &&& is_generated_id(r.base.id@)
    &&& r.base.version == SamlVersion::V2_0
    &&& opt_string_view(r.base.destination) == Some(opts.destination@)
    &&& r.base.consent is None
    &&& is_entity_issuer(r.base.issuer, cfg.entity_id@)
    &&& !r.base.has_signature
    &&& r.name_id_policy matches Some(p) && opt_string_view(p.format) == Some(cfg.name_id_format@)
        && p.sp_name_qualifier is None && p.allow_create == opts.allow_create
    &&& (if cfg.requested_loas.len() > 0 {
        r.requested_authn_context matches Some(c) && strings_view(c.authn_context_class_refs@) == strings_view(
            cfg.requested_loas@,
        ) && c.authn_context_decl_refs.len() == 0 && c.comparison == AuthnContextComparison::Exact
    } else {
        r.requested_authn_context is None
    })
    &&& (if opts.scoping_idp_list.len() > 0 || opts.proxy_count is Some || opts.requester_ids.len() > 0 {
        r.scoping matches Some(s) && s.proxy_count == opts.proxy_count && strings_view(s.idp_list@) == strings_view(
            opts.scoping_idp_list@,
        ) && strings_view(s.requester_ids@) == strings_view(opts.requester_ids@)
    } else {
        r.scoping is None
    })
    &&& r.force_authn == Some(cfg.role == SwedenConnectRole::SignatureService || opts.force_authn)
    &&& r.is_passive == opts.is_passive
    &&& r.assertion_consumer_service_index == opts.acs_index
    &&& opt_string_view(r.assertion_consumer_service_url) == opt_string_view(opts.acs_url)
    &&& opt_string_view(r.protocol_binding) == Some(BINDING_HTTP_POST@)
    &&& r.attribute_consuming_service_index == opts.attribute_consuming_service_index
    &&& r.provider_name is None
    &&& r.extensions is None
}

/// Build a Sweden Connect conformant `AuthnRequest`.
///
/// Fails when the destination is blank, when both an ACS URL and an ACS
/// index are given, and when the SP has no entity ID (as a profile error).
pub fn build_authn_request(cfg: &SwedenConnectConfig, opts: &SwedenConnectAuthnOptions) -> (r: Result<
    SwedenConnectAuthnRequest,
    SwedenConnectError,
>)
    ensures
        trim(opts.destination@).len() == 0 ==> (r matches Err(SwedenConnectError::Other(m))
            && m@ == MISSING_DESTINATION_MESSAGE@),
        trim(opts.destination@).len() > 0 && opts.acs_url is Some && opts.acs_index is Some ==> (r matches Err(
            SwedenConnectError::Other(m),
        ) && m@ == ACS_CONFLICT_MESSAGE@),
        trim(opts.destination@).len() > 0 && !(opts.acs_url is Some && opts.acs_index is Some)
            && cfg.entity_id@.len() == 0 ==> (r matches Err(SwedenConnectError::Profile(e)) && e
            == crate::profiles::error::ProfileError::MissingIssuer),
        trim(opts.destination@).len() > 0 && !(opts.acs_url is Some && opts.acs_index is Some)
            && cfg.entity_id@.len() > 0 ==> (r matches Ok(b) && is_sc_authn_request(b.request, *cfg, *opts)
            && opt_string_view(b.extensions_xml) == request_extensions_text(request_fragments(*opts))),
{
    let dest_chars = chars_of(opts.destination.as_str());
    let trimmed = trim_chars(dest_chars.as_slice());
    if trimmed.len() == 0 {
        return Err(SwedenConnectError::Other(to_owned_string(MISSING_DESTINATION_MESSAGE)));
    }
    if opts.acs_url.is_some() && opts.acs_index.is_some() {
        return Err(SwedenConnectError::Other(to_owned_string(ACS_CONFLICT_MESSAGE)));
    }
    let force_authn = if cfg.is_signature_service() {
        true
    } else {
        opts.force_authn
    };
    let builder_opts = AuthnRequestOptions {
        sp_entity_id: to_owned_string(cfg.entity_id.as_str()),
        acs_url: opt_string_clone(&opts.acs_url),
        acs_index: opts.acs_index,
        protocol_binding: Some(to_owned_string(BINDING_HTTP_POST)),
        force_authn: Some(force_authn),
        is_passive: opts.is_passive,
        name_id_format: Some(to_owned_string(cfg.name_id_format.as_str())),
        allow_create: opts.allow_create,
        sp_name_qualifier: None,
        authn_context_class_refs: strings_clone(cfg.requested_loas.as_slice()),
        authn_context_comparison: Some(AuthnContextComparison::Exact),
        provider_name: None,
        destination: Some(to_owned_string(opts.destination.as_str())),
        proxy_count: opts.proxy_count,
        requester_ids: strings_clone(opts.requester_ids.as_slice()),
        attribute_consuming_service_index: opts.attribute_consuming_service_index,
        extensions: None,
    };
    assert(strings_view(builder_opts.authn_context_class_refs@).len() == builder_opts.authn_context_class_refs@.len());
    assert(strings_view(cfg.requested_loas@).len() == cfg.requested_loas@.len());
    assert(strings_view(builder_opts.requester_ids@).len() == builder_opts.requester_ids@.len());
    assert(strings_view(opts.requester_ids@).len() == opts.requester_ids@.len());
    let mut request = match create_authn_request(&builder_opts) {
        Ok(req) => req,
        Err(e) => return Err(SwedenConnectError::Profile(e)),
    };
    if opts.scoping_idp_list.len() > 0 {
        let requester_ids = match &request.scoping {
            Some(s) => strings_clone(s.requester_ids.as_slice()),
            None => strings_clone(opts.requester_ids.as_slice()),
        };
        let proxy_count = match &request.scoping {
            Some(s) => s.proxy_count,
            None => opts.proxy_count,
        };
        request.scoping = Some(
            Scoping { proxy_count, idp_list: strings_clone(opts.scoping_idp_list.as_slice()), requester_ids },
        );
    }
    if cfg.requested_loas.len() > 0 {
        request.requested_authn_context = Some(
            RequestedAuthnContext {
                authn_context_class_refs: strings_clone(cfg.requested_loas.as_slice()),
                authn_context_decl_refs: Vec::new(),
                comparison: AuthnContextComparison::Exact,
            },
        );
    }
    let mut fragments: Vec<String> = Vec::new();
    if let Some(sm) = &opts.sign_message {
        fragments.push(sm.to_xml_string());
    }
    let ghost f1 = strings_view(fragments@);
    assert(f1 =~= match opts.sign_message {
        Some(sm) => seq![sign_message_xml(sm)],
        None => Seq::<Seq<char>>::empty(),
    });
    if let Some(sad) = &opts.sad_request {
        fragments.push(sad.to_xml_string());
    }
    let ghost f2 = strings_view(fragments@);
    assert(f2 =~= f1 + match opts.sad_request {
        Some(sad) => seq![sad_request_xml(sad)],
        None => Seq::<Seq<char>>::empty(),
    });
    if let Some(ps) = &opts.principal_selection {
        fragments.push(ps.to_xml_string());
    }
    assert(strings_view(fragments@) =~= request_fragments(*opts));
    let extensions_xml = request_extensions_xml(fragments.as_slice());
    proof {
        assert(cfg.requested_loas.len() == 0 ==> request.requested_authn_context is None);
        assert(opts.scoping_idp_list.len() == 0 && (opts.proxy_count is Some || opts.requester_ids.len() > 0)
            ==> (request.scoping matches Some(s) && strings_view(s.idp_list@) == strings_view(opts.scoping_idp_list@)));
    }
    Ok(SwedenConnectAuthnRequest { request, extensions_xml })
}

} // verus!
