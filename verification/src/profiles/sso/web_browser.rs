//! SAML 2.0 Web Browser SSO Profile (SAML Profiles section 4.1): common types
//! and helpers.

use vstd::prelude::*;
use crate::assertion::{same_attribute, Attribute, AttributeStatement, AuthnContext, AuthnStatement};
use crate::protocol::{opt_string_clone, Assertion, AuthnContextComparison, NameId, Response};
use crate::text::{opt_string_view, strings_clone, strings_view, to_owned_string};

verus! {

/// The HTTP-Redirect binding.
pub const BINDING_HTTP_REDIRECT: &'static str = "urn:oasis:names:tc:SAML:2.0:bindings:HTTP-Redirect";
/// The HTTP-POST binding.
pub const BINDING_HTTP_POST: &'static str = "urn:oasis:names:tc:SAML:2.0:bindings:HTTP-POST";
/// The HTTP-Artifact binding.
pub const BINDING_HTTP_ARTIFACT: &'static str = "urn:oasis:names:tc:SAML:2.0:bindings:HTTP-Artifact";
/// The SOAP binding.
pub const BINDING_SOAP: &'static str = "urn:oasis:names:tc:SAML:2.0:bindings:SOAP";
/// The reverse SOAP (PAOS) binding.
pub const BINDING_PAOS: &'static str = "urn:oasis:names:tc:SAML:2.0:bindings:PAOS";

/// Options for creating an AuthnRequest (SP-side).
#[derive(Debug, Clone)]
pub struct AuthnRequestOptions {
    /// SP entity ID (used as Issuer).
    pub sp_entity_id: String,
    /// The desired ACS URL (if not using index).
    pub acs_url: Option<String>,
    /// The ACS index (if not using URL).
    pub acs_index: Option<u16>,
    /// The desired protocol binding for the response.
    pub protocol_binding: Option<String>,
    /// Whether to request a new authentication (ForceAuthn).
    pub force_authn: Option<bool>,
    /// Whether the IdP should not interact with the user (IsPassive).
    pub is_passive: Option<bool>,
    /// Desired NameID format.
    pub name_id_format: Option<String>,
    /// Whether to allow creation of new identifiers (E14: create OR associate).
    pub allow_create: bool,
    /// SP name qualifier for NameIDPolicy.
    pub sp_name_qualifier: Option<String>,
    /// Requested authentication context class refs.
    pub authn_context_class_refs: Vec<String>,
    /// Comparison type for requested authn context.
    pub authn_context_comparison: Option<AuthnContextComparison>,
    /// Provider name (human-readable SP name).
    pub provider_name: Option<String>,
    /// Destination URL (IdP SSO endpoint).
    pub destination: Option<String>,
    /// Scoping: proxy count limit.
    pub proxy_count: Option<u32>,
    /// Scoping: requester IDs.
    pub requester_ids: Vec<String>,
    /// AttributeConsumingServiceIndex.
    pub attribute_consuming_service_index: Option<u16>,
    /// Raw XML of the `samlp:Extensions` element (including the wrapper).
    pub extensions: Option<String>,
}

impl Default for AuthnRequestOptions {
    /// Empty options: no entity ID, nothing requested.
    fn default() -> (r: Self)
        ensures
            r.sp_entity_id@.len() == 0,
            r.acs_url is None,
            r.acs_index is None,
            r.protocol_binding is None,
            r.force_authn is None,
            r.is_passive is None,
            r.name_id_format is None,
            !r.allow_create,
            r.sp_name_qualifier is None,
            r.authn_context_class_refs.len() == 0,
            r.authn_context_comparison is None,
            r.provider_name is None,
            r.destination is None,
            r.proxy_count is None,
            r.requester_ids.len() == 0,
            r.attribute_consuming_service_index is None,
            r.extensions is None,
    {
        AuthnRequestOptions {
            sp_entity_id: String::new(),
            acs_url: None,
            acs_index: None,
            protocol_binding: None,
            force_authn: None,
            is_passive: None,
            name_id_format: None,
            allow_create: false,
            sp_name_qualifier: None,
            authn_context_class_refs: Vec::new(),
            authn_context_comparison: None,
            provider_name: None,
            destination: None,
            proxy_count: None,
            requester_ids: Vec::new(),
            attribute_consuming_service_index: None,
            extensions: None,
        }
    }
}

/// Options for creating a Response (IdP side).
#[derive(Debug, Clone)]
pub struct ResponseOptions {
    /// IdP entity ID (the issuer).
    pub idp_entity_id: String,
    /// The request ID this response answers (`None` when unsolicited).
    pub in_response_to: Option<String>,
    /// The SP entity ID (the audience).
    pub sp_entity_id: String,
    /// The ACS URL (the response's destination and the confirmation's
    /// recipient).
    pub acs_url: String,
    /// How long the assertion is valid, in seconds from its issue instant.
    pub assertion_lifetime_seconds: u64,
    /// The session index, if any.
    pub session_index: Option<String>,
    /// The session's expiry, if any.
    pub session_not_on_or_after: Option<i128>,
    /// The authentication context class reference.
    pub authn_context_class_ref: Option<String>,
    /// The client's address (subject locality and confirmation address).
    pub client_address: Option<String>,
    /// Attributes to put in an AttributeStatement.
    pub attributes: Vec<Attribute>,
}

/// The two instants of a response: when the document is generated (its
/// and the assertion's `IssueInstant`, `NotBefore`, and the base of every
/// `NotOnOrAfter`) and when the principal authenticated (`AuthnInstant`,
/// possibly earlier, for a reused session).
#[derive(Debug, Clone, Copy)]
pub struct ResponseTimes {
    /// When the response is generated, in nanoseconds since the epoch.
    pub issue_instant: i128,
    /// When the principal authenticated, in nanoseconds since the epoch.
    pub authn_instant: i128,
}

impl ResponseTimes {
    /// Both instants at `now` (a fresh login).
    pub fn at(now: i128) -> (r: Self)
        ensures
            r.issue_instant == now,
            r.authn_instant == now,
    {
        ResponseTimes { issue_instant: now, authn_instant: now }
    }
}

/// The identity and session an SP takes from a validated response.
#[derive(Debug, Clone)]
pub struct AuthnResult {
    /// The authenticated subject's NameID value.
    pub name_id: String,
    /// The NameID format.
    pub name_id_format: Option<String>,
    /// The NameID name qualifier.
    pub name_qualifier: Option<String>,
    /// The NameID SP name qualifier.
    pub sp_name_qualifier: Option<String>,
    /// Session index from the AuthnStatement (needed for SLO).
    pub session_index: Option<String>,
    /// When the session expires, in nanoseconds since the epoch.
    pub session_not_on_or_after: Option<i128>,
    /// The authentication instant, in nanoseconds since the epoch.
    pub authn_instant: i128,
    /// The authentication context class reference.
    pub authn_context_class_ref: Option<String>,
    /// The authentication context declaration reference.
    pub authn_context_decl_ref: Option<String>,
    /// Authenticating authorities (proxied authentication).
    pub authenticating_authorities: Vec<String>,
    /// Attributes from the AttributeStatements.
    pub attributes: Vec<Attribute>,
    /// The IdP entity ID (from the assertion's issuer).
    pub idp_entity_id: String,
    /// The assertion ID.
    pub assertion_id: String,
    /// The response ID.
    pub response_id: String,
}

/// The attributes of all statements, in order.
pub open spec fn statement_attributes(stmts: Seq<AttributeStatement>) -> Seq<Attribute>
    decreases stmts.len(),
{
    if stmts.len() == 0 {
        Seq::empty()
    } else {
        statement_attributes(stmts.drop_last()) + stmts.last().attributes@
    }
}

/// Two attribute lists agree entry by entry.
pub open spec fn same_attributes(a: Seq<Attribute>, b: Seq<Attribute>) -> bool {
    a.len() == b.len() && forall|i: int| 0 <= i < a.len() ==> same_attribute(#[trigger] a[i], b[i])
}

/// Extract attributes from all AttributeStatements, in document order.
pub fn extract_attributes(attribute_statements: &[AttributeStatement]) -> (r: Vec<Attribute>)
    ensures
        same_attributes(r@, statement_attributes(attribute_statements@)),
{
    let mut out: Vec<Attribute> = Vec::new();
    let mut i: usize = 0;
    while i < attribute_statements.len()
        invariant
            i <= attribute_statements.len(),
            same_attributes(out@, statement_attributes(attribute_statements@.subrange(0, i as int))),
        decreases attribute_statements.len() - i,
    {
        let stmt = &attribute_statements[i];
        let ghost before = out@;
        let ghost prefix = statement_attributes(attribute_statements@.subrange(0, i as int));
        let mut j: usize = 0;
        while j < stmt.attributes.len()
            invariant
                j <= stmt.attributes.len(),
                out@.len() == before.len() + j,
                same_attributes(before, prefix),
                forall|k: int| 0 <= k < before.len() ==> out@[k] == before[k],
                forall|k: int| 0 <= k < j ==> same_attribute(#[trigger] out@[before.len() + k], stmt.attributes@[k]),
            decreases stmt.attributes.len() - j,
        {
            out.push(stmt.attributes[j].duplicate());
            j = j + 1;
        }
        proof {
            let next = statement_attributes(attribute_statements@.subrange(0, i + 1));
            assert(attribute_statements@.subrange(0, i + 1).drop_last() =~= attribute_statements@.subrange(0, i as int));
            assert(next == prefix + stmt.attributes@);
            assert forall|k: int| 0 <= k < out@.len() implies same_attribute(#[trigger] out@[k], next[k]) by {
                if k < before.len() {
                    assert(out@[k] == before[k]);
                } else {
                    assert(out@[before.len() + (k - before.len())] == out@[k]);
                }
            }
        }
        i = i + 1;
    }
    assert(attribute_statements@.subrange(0, i as int) =~= attribute_statements@);
    out
}

/// Extract the AuthnContext from the first AuthnStatement.
pub fn extract_authn_context(authn_statements: &[AuthnStatement]) -> (r: Option<&AuthnContext>)
    ensures
        authn_statements@.len() == 0 ==> r is None,
        authn_statements@.len() > 0 ==> r == Some(&authn_statements@[0].authn_context),
{
    if authn_statements.len() == 0 {
        None
    } else {
        Some(&authn_statements[0].authn_context)
    }
}

/// Extract the session index from the first AuthnStatement.
pub fn extract_session_index(authn_statements: &[AuthnStatement]) -> (r: Option<&str>)
    ensures
        match r {
            Some(s) => authn_statements@.len() > 0 && (authn_statements@[0].session_index matches Some(x) && x@ == s@),
            None => authn_statements@.len() == 0 || authn_statements@[0].session_index is None,
        },
{
    if authn_statements.len() == 0 {
        None
    } else {
        match &authn_statements[0].session_index {
            Some(s) => Some(s.as_str()),
            None => None,
        }
    }
}

/// Extract session not-on-or-after from the first AuthnStatement.
pub fn extract_session_not_on_or_after(authn_statements: &[AuthnStatement]) -> (r: Option<i128>)
    ensures
        authn_statements@.len() == 0 ==> r is None,
        authn_statements@.len() > 0 ==> r == authn_statements@[0].session_not_on_or_after,
{
    if authn_statements.len() == 0 {
        None
    } else {
        authn_statements[0].session_not_on_or_after
    }
}

/// The attributes of all statements of all assertions, in order.
pub open spec fn assertions_attributes(assertions: Seq<Assertion>) -> Seq<Attribute>
    decreases assertions.len(),
{
    if assertions.len() == 0 {
        Seq::empty()
    } else {
        assertions_attributes(assertions.drop_last()) + statement_attributes(assertions.last().attribute_statements@)
    }
}

/// Copies of the attributes of all statements of all assertions, in order.
pub fn collect_assertion_attributes(assertions: &[Assertion]) -> (r: Vec<Attribute>)
    ensures
        same_attributes(r@, assertions_attributes(assertions@)),
{
    let mut out: Vec<Attribute> = Vec::new();
    let mut i: usize = 0;
    while i < assertions.len()
        invariant
            i <= assertions.len(),
            same_attributes(out@, assertions_attributes(assertions@.take(i as int))),
        decreases assertions.len() - i,
    {
        let more = extract_attributes(assertions[i].attribute_statements.as_slice());
        let ghost before = out@;
        let ghost prefix = assertions_attributes(assertions@.take(i as int));
        let mut j: usize = 0;
        while j < more.len()
            invariant
                j <= more.len(),
                out@.len() == before.len() + j,
                same_attributes(before, prefix),
                forall|k: int| 0 <= k < before.len() ==> out@[k] == before[k],
                forall|k: int| 0 <= k < j ==> same_attribute(#[trigger] out@[before.len() + k], more@[k]),
            decreases more.len() - j,
        {
            out.push(more[j].duplicate());
            j = j + 1;
        }
        proof {
            let stmt_attrs = statement_attributes(assertions@[i as int].attribute_statements@);
            let next = assertions_attributes(assertions@.take(i + 1));
            assert(assertions@.take(i + 1).drop_last() =~= assertions@.take(i as int));
            assert(assertions@.take(i + 1).last() == assertions@[i as int]);
            assert(next == prefix + stmt_attrs);
            assert forall|k: int| 0 <= k < out@.len() implies same_attribute(#[trigger] out@[k], next[k]) by {
                if k < before.len() {
                    assert(out@[k] == before[k]);
                } else {
                    assert(out@[before.len() + (k - before.len())] == out@[k]);
                    assert(same_attribute(more@[k - before.len()], stmt_attrs[k - before.len()]));
                }
            }
        }
        i = i + 1;
    }
    assert(assertions@.take(i as int) =~= assertions@);
    out
}

/// The position of the first assertion with an authentication statement,
/// at or after `i`.
pub open spec fn first_with_authn(assertions: Seq<Assertion>, i: int) -> Option<int>
    decreases assertions.len() - i,
{
    if i < 0 || i >= assertions.len() {
        None
    } else if assertions[i].authn_statements.len() > 0 {
        Some(i)
    } else {
        first_with_authn(assertions, i + 1)
    }
}

/// Finds the first assertion with an authentication statement.
pub fn find_authn_assertion(assertions: &[Assertion]) -> (r: Option<usize>)
    ensures
        match first_with_authn(assertions@, 0) {
            Some(k) => r == Some(k as usize) && 0 <= k < assertions@.len(),
            None => r is None,
        },
        r matches Some(k) ==> assertions@[k as int].authn_statements.len() > 0,
{
    let mut i: usize = 0;
    while i < assertions.len()
        invariant
            i <= assertions.len(),
            first_with_authn(assertions@, 0) == first_with_authn(assertions@, i as int),
        decreases assertions.len() - i,
    {
        if assertions[i].authn_statements.len() > 0 {
            return Some(i);
        }
        i = i + 1;
    }
    None
}

/// Whether `r` is the result drawn from the response, its assertion `a`
/// (whose first authentication statement gives the session) and the
/// subject's name identifier `n`, with the attributes of all assertions.
pub open spec fn is_authn_result(r: AuthnResult, response: Response, a: Assertion, n: NameId) -> bool {
    let st = a.authn_statements@[0];
    &&& r.name_id@ == n.value@
    &&& opt_string_view(r.name_id_format) == opt_string_view(n.format)
    &&& opt_string_view(r.name_qualifier) == opt_string_view(n.name_qualifier)
    &&& opt_string_view(r.sp_name_qualifier) == opt_string_view(n.sp_name_qualifier)
    &&& opt_string_view(r.session_index) == opt_string_view(st.session_index)
    &&& r.session_not_on_or_after == st.session_not_on_or_after
    &&& r.authn_instant == st.authn_instant
    &&& opt_string_view(r.authn_context_class_ref) == opt_string_view(st.authn_context.authn_context_class_ref)
    &&& opt_string_view(r.authn_context_decl_ref) == opt_string_view(st.authn_context.authn_context_decl_ref)
    &&& strings_view(r.authenticating_authorities@) == strings_view(st.authn_context.authenticating_authorities@)
    &&& same_attributes(r.attributes@, assertions_attributes(response.assertions@))
    &&& r.idp_entity_id@ == a.issuer.value@
    &&& r.assertion_id@ == a.id@
    &&& r.response_id@ == response.base.id@
}

/// Builds the result from the response, the assertion `a` and the name
/// identifier `n`.
pub fn authn_result_from(response: &Response, a: &Assertion, n: &NameId) -> (r: AuthnResult)
    requires
        a.authn_statements.len() > 0,
    ensures
        is_authn_result(r, *response, *a, *n),
{
    let st = &a.authn_statements[0];
    AuthnResult {
        name_id: to_owned_string(n.value.as_str()),
        name_id_format: opt_string_clone(&n.format),
        name_qualifier: opt_string_clone(&n.name_qualifier),
        sp_name_qualifier: opt_string_clone(&n.sp_name_qualifier),
        session_index: opt_string_clone(&st.session_index),
        session_not_on_or_after: st.session_not_on_or_after,
        authn_instant: st.authn_instant,
        authn_context_class_ref: opt_string_clone(&st.authn_context.authn_context_class_ref),
        authn_context_decl_ref: opt_string_clone(&st.authn_context.authn_context_decl_ref),
        authenticating_authorities: strings_clone(st.authn_context.authenticating_authorities.as_slice()),
        attributes: collect_assertion_attributes(response.assertions.as_slice()),
        idp_entity_id: to_owned_string(a.issuer.value.as_str()),
        assertion_id: to_owned_string(a.id.as_str()),
        response_id: to_owned_string(response.base.id.as_str()),
    }
}

} // verus!
