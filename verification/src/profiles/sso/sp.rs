//! SAML 2.0 Web Browser SSO Profile, SP side (SAML Profiles section 4.1):
//! AuthnRequest creation and endpoint selection from metadata.

use vstd::prelude::*;
use crate::metadata::types::endpoint::{Endpoint, IndexedEndpoint};
use crate::metadata::types::idp::{find_endpoint_by_binding, first_with_binding, IdpSsoDescriptor};
use crate::profiles::error::ProfileError;
use crate::protocol::{
    generate_saml_id, is_entity_issuer, is_generated_id, opt_string_clone, unix_now, AuthnContextComparison,
    AuthnRequest, Issuer, NameIdPolicy, RequestBase, RequestedAuthnContext, SamlVersion, Scoping,
};
use crate::profiles::sso::web_browser::{
    authn_result_from, find_authn_assertion, first_with_authn, is_authn_result, AuthnRequestOptions, AuthnResult,
};
use crate::protocol::{status_failure_message, status_failure_text, NameIdOrEncryptedId, Response, STATUS_SUCCESS};
use crate::security::{failures_message, failures_text, CheckFailure};
use crate::text::to_owned_string;
use crate::text::{opt_string_view, str_eq, strings_clone, strings_view, strs_view};

verus! {

/// The AuthnRequest an SP builds from `o` (its ID and issue instant aside):
/// the SP as issuer; a NameIDPolicy when a format, AllowCreate or an SP name
/// qualifier is asked for; an exact (unless told otherwise) requested context
/// when class references are given; a Scoping when a proxy count or
/// requester IDs are given; every other option carried over.
pub open spec fn is_authn_request_for(r: AuthnRequest, o: AuthnRequestOptions) -> bool {
    &&& is_generated_id(r.base.id@)
    &&& r.base.version == SamlVersion::V2_0
    &&& opt_string_view(r.base.destination) == opt_string_view(o.destination)
    &&& r.base.consent is None
    &&& is_entity_issuer(r.base.issuer, o.sp_entity_id@)
    &&& !r.base.has_signature
    &&& (if o.name_id_format is Some || o.allow_create || o.sp_name_qualifier is Some {
        r.name_id_policy matches Some(p) && opt_string_view(p.format) == opt_string_view(o.name_id_format)
            && opt_string_view(p.sp_name_qualifier) == opt_string_view(o.sp_name_qualifier) && p.allow_create
            == o.allow_create
    } else {
        r.name_id_policy is None
    })
    &&& (if o.authn_context_class_refs.len() > 0 {
        r.requested_authn_context matches Some(c) && strings_view(c.authn_context_class_refs@) == strings_view(
            o.authn_context_class_refs@,
        ) && c.authn_context_decl_refs.len() == 0 && c.comparison == match o.authn_context_comparison {
            Some(k) => k,
            None => AuthnContextComparison::Exact,
        }
    } else {
        r.requested_authn_context is None
    })
    &&& (if o.proxy_count is Some || o.requester_ids.len() > 0 {
        r.scoping matches Some(s) && s.proxy_count == o.proxy_count && s.idp_list.len() == 0 && strings_view(
            s.requester_ids@,
        ) == strings_view(o.requester_ids@)
    } else {
        r.scoping is None
    })
    &&& r.force_authn == o.force_authn
    &&& r.is_passive == o.is_passive
    &&& r.assertion_consumer_service_index == o.acs_index
    &&& opt_string_view(r.assertion_consumer_service_url) == opt_string_view(o.acs_url)
    &&& opt_string_view(r.protocol_binding) == opt_string_view(o.protocol_binding)
    &&& r.attribute_consuming_service_index == o.attribute_consuming_service_index
    &&& opt_string_view(r.provider_name) == opt_string_view(o.provider_name)
    &&& opt_string_view(r.extensions) == opt_string_view(o.extensions)
}

/// Create an AuthnRequest per SAML Profiles 4.1.4.1: the SP's entity ID is
/// the (entity-format) Issuer, which must not be empty.
pub fn create_authn_request(options: &AuthnRequestOptions) -> (r: Result<AuthnRequest, ProfileError>)
    ensures
        options.sp_entity_id@.len() == 0 <==> r is Err,
        r matches Err(e) ==> e == ProfileError::MissingIssuer,
        r matches Ok(req) ==> is_authn_request_for(req, *options),
{
    if options.sp_entity_id.as_str().unicode_len() == 0 {
        return Err(ProfileError::MissingIssuer);
    }
    let name_id_policy = if options.name_id_format.is_some() || options.allow_create
        || options.sp_name_qualifier.is_some() {
        Some(
            NameIdPolicy {
                format: opt_string_clone(&options.name_id_format),
                sp_name_qualifier: opt_string_clone(&options.sp_name_qualifier),
                allow_create: options.allow_create,
            },
        )
    } else {
        None
    };
    let requested_authn_context = if options.authn_context_class_refs.len() > 0 {
        let comparison = match options.authn_context_comparison {
            Some(k) => k,
            None => AuthnContextComparison::Exact,
        };
        Some(
            RequestedAuthnContext {
                authn_context_class_refs: strings_clone(options.authn_context_class_refs.as_slice()),
                authn_context_decl_refs: Vec::new(),
                comparison,
            },
        )
    } else {
        None
    };
    let scoping = if options.proxy_count.is_some() || options.requester_ids.len() > 0 {
        Some(
            Scoping {
                proxy_count: options.proxy_count,
                idp_list: Vec::new(),
                requester_ids: strings_clone(options.requester_ids.as_slice()),
            },
        )
    } else {
        None
    };
    Ok(
        AuthnRequest {
            base: RequestBase {
                id: generate_saml_id(),
                version: SamlVersion::V2_0,
                issue_instant: unix_now(),
                destination: opt_string_clone(&options.destination),
                consent: None,
                issuer: Some(Issuer::entity(options.sp_entity_id.as_str())),
                has_signature: false,
            },
            name_id_policy,
            requested_authn_context,
            scoping,
            force_authn: options.force_authn,
            is_passive: options.is_passive,
            assertion_consumer_service_index: options.acs_index,
            assertion_consumer_service_url: opt_string_clone(&options.acs_url),
            protocol_binding: opt_string_clone(&options.protocol_binding),
            attribute_consuming_service_index: options.attribute_consuming_service_index,
            provider_name: opt_string_clone(&options.provider_name),
            extensions: opt_string_clone(&options.extensions),
        },
    )
}

/// Find the best SSO endpoint from IdP metadata: the first for the
/// preferred binding, else the first advertised.
pub fn find_sso_endpoint<'a>(idp: &'a IdpSsoDescriptor, preferred_binding: &str) -> (r: Option<&'a Endpoint>)
    ensures
        match first_with_binding(idp.single_sign_on_services@, preferred_binding@, 0) {
            Some(k) => r matches Some(e) && 0 <= k < idp.single_sign_on_services.len() && *e
                == idp.single_sign_on_services@[k],
            None => if idp.single_sign_on_services.len() == 0 {
                r is None
            } else {
                r matches Some(e) && *e == idp.single_sign_on_services@[0]
            },
        },
{
    match find_endpoint_by_binding(&idp.single_sign_on_services, preferred_binding) {
        Some(e) => Some(e),
        None => {
            if idp.single_sign_on_services.len() == 0 {
                None
            } else {
                Some(&idp.single_sign_on_services[0])
            }
        },
    }
}

/// The position of the first endpoint marked default at or after `i`.
pub open spec fn first_default(es: Seq<IndexedEndpoint>, i: int) -> Option<int>
    decreases es.len() - i,
{
    if i < 0 || i >= es.len() {
        None
    } else if es[i].is_default == Some(true) {
        Some(i)
    } else {
        first_default(es, i + 1)
    }
}

/// Position `k` holds the lowest index, and is the first that does.
pub open spec fn is_first_lowest(es: Seq<IndexedEndpoint>, k: int) -> bool {
    &&& 0 <= k < es.len()
    &&& forall|j: int| 0 <= j < es.len() ==> es[k].index <= #[trigger] es[j].index
    &&& forall|j: int| 0 <= j < k ==> es[k].index < #[trigger] es[j].index
}

/// Find the default ACS endpoint from SP metadata: the first marked default,
/// else the first with the lowest index.
pub fn find_default_acs_endpoint(acs_endpoints: &[IndexedEndpoint]) -> (r: Option<&IndexedEndpoint>)
    ensures
        match first_default(acs_endpoints@, 0) {
            Some(k) => r matches Some(e) && 0 <= k < acs_endpoints@.len() && *e == acs_endpoints@[k],
            None => match r {
                Some(e) => exists|k: int| is_first_lowest(acs_endpoints@, k) && *e == acs_endpoints@[k],
                None => acs_endpoints@.len() == 0,
            },
        },
{
    let mut i: usize = 0;
    while i < acs_endpoints.len()
        invariant
            i <= acs_endpoints.len(),
            first_default(acs_endpoints@, 0) == first_default(acs_endpoints@, i as int),
        decreases acs_endpoints.len() - i,
    {
        if acs_endpoints[i].is_default == Some(true) {
            return Some(&acs_endpoints[i]);
        }
        i = i + 1;
    }
    if acs_endpoints.len() == 0 {
        return None;
    }
    let mut best: usize = 0;
    let mut j: usize = 1;
    while j < acs_endpoints.len()
        invariant
            1 <= j <= acs_endpoints.len(),
            best < j,
            forall|m: int| 0 <= m < j ==> acs_endpoints@[best as int].index <= #[trigger] acs_endpoints@[m].index,
            forall|m: int| 0 <= m < best ==> acs_endpoints@[best as int].index < #[trigger] acs_endpoints@[m].index,
        decreases acs_endpoints.len() - j,
    {
        if acs_endpoints[j].index < acs_endpoints[best].index {
            best = j;
        }
        j = j + 1;
    }
    assert(is_first_lowest(acs_endpoints@, best as int));
    Some(&acs_endpoints[best])
}

/// The position of the first endpoint with this binding at or after `i`.
pub open spec fn first_indexed_with_binding(es: Seq<IndexedEndpoint>, binding: Seq<char>, i: int) -> Option<int>
    decreases es.len() - i,
{
    if i < 0 || i >= es.len() {
        None
    } else if es[i].endpoint.binding@ == binding {
        Some(i)
    } else {
        first_indexed_with_binding(es, binding, i + 1)
    }
}

/// Find the first ACS endpoint with the specified binding.
pub fn find_acs_endpoint_by_binding<'a>(acs_endpoints: &'a [IndexedEndpoint], binding: &str) -> (r: Option<
    &'a IndexedEndpoint,
>)
    ensures
        match first_indexed_with_binding(acs_endpoints@, binding@, 0) {
            Some(k) => r matches Some(e) && 0 <= k < acs_endpoints@.len() && *e == acs_endpoints@[k],
            None => r is None,
        },
{
    let mut i: usize = 0;
    while i < acs_endpoints.len()
        invariant
            i <= acs_endpoints.len(),
            first_indexed_with_binding(acs_endpoints@, binding@, 0) == first_indexed_with_binding(
                acs_endpoints@,
                binding@,
                i as int,
            ),
        decreases acs_endpoints.len() - i,
    {
        if str_eq(acs_endpoints[i].endpoint.binding.as_str(), binding) {
            return Some(&acs_endpoints[i]);
        }
        i = i + 1;
    }
    None
}

/// The outcome owed for a response whose assertion validation reported
/// `failures`: a failed status is `ResponseFailure` (with the status
/// message, or the code); a response without assertions is `NoAssertions`;
/// failed checks are `AssertionValidation` with their texts joined; else the
/// first assertion with an authentication statement gives the result, its
/// subject's plain name identifier being required.
pub open spec fn sp_processing(response: Response, failures: Seq<CheckFailure>, r: Result<AuthnResult, ProfileError>) -> bool {
    if response.base.status.status_code.value@ != STATUS_SUCCESS@ {
        r matches Err(ProfileError::ResponseFailure(m)) && m@ == status_failure_text(response.base.status)
    } else if response.assertions.len() == 0 && response.encrypted_assertions.len() == 0 {
        r matches Err(ProfileError::NoAssertions)
    } else if failures.len() > 0 {
        r matches Err(ProfileError::AssertionValidation(m)) && m@ == failures_text(failures)
    } else {
        match first_with_authn(response.assertions@, 0) {
            None => r matches Err(ProfileError::NoAuthnStatement),
            Some(k) => match response.assertions@[k].subject {
                None => r matches Err(ProfileError::MissingNameId),
                Some(s) => match s.name_id {
                    None => r matches Err(ProfileError::MissingNameId),
                    Some(NameIdOrEncryptedId::EncryptedId(_)) => r matches Err(ProfileError::Other(m)) && m@
                        == "encrypted NameID not yet supported"@,
                    Some(NameIdOrEncryptedId::NameId(n)) => r matches Ok(x) && is_authn_result(
                        x,
                        response,
                        response.assertions@[k],
                        n,
                    ),
                },
            },
        }
    }
}

/// Processes a SAML `Response` at the SP once its assertions have been
/// validated (`validation_failures` lists the checks that failed): see
/// `sp_processing` for the outcome.
pub fn process_response(response: &Response, validation_failures: &[CheckFailure]) -> (r: Result<AuthnResult, ProfileError>)
    ensures
        sp_processing(*response, validation_failures@, r),
{
    if !response.base.status.is_success() {
        return Err(ProfileError::ResponseFailure(status_failure_message(&response.base.status)));
    }
    if response.assertions.len() == 0 && response.encrypted_assertions.len() == 0 {
        return Err(ProfileError::NoAssertions);
    }
    if validation_failures.len() > 0 {
        return Err(ProfileError::AssertionValidation(failures_message(validation_failures)));
    }
    let k = match find_authn_assertion(response.assertions.as_slice()) {
        Some(k) => k,
        None => return Err(ProfileError::NoAuthnStatement),
    };
    let assertion = &response.assertions[k];
    let subject = match &assertion.subject {
        Some(s) => s,
        None => return Err(ProfileError::MissingNameId),
    };
    match &subject.name_id {
        Some(NameIdOrEncryptedId::NameId(n)) => Ok(authn_result_from(response, assertion, n)),
        Some(NameIdOrEncryptedId::EncryptedId(_)) => Err(
            ProfileError::Other(to_owned_string("encrypted NameID not yet supported")),
        ),
        None => Err(ProfileError::MissingNameId),
    }
}

/// What the assertion checks are told of the response's own signature,
/// given the IDs whose XML signatures were verified: nothing when the
/// response is unsigned or no signed ID was verified, else whether the
/// response's ID is among them.
pub open spec fn response_signature_state(response: Response, verified_signed_ids: Seq<Seq<char>>) -> Option<bool> {
    if !response.base.has_signature || verified_signed_ids.len() == 0 {
        None
    } else {
        Some(verified_signed_ids.contains(response.base.id@))
    }
}

/// Whether the response's own signature was verified, from the IDs whose XML
/// signatures a verifier confirmed (see `response_signature_state`).
pub fn response_signature_verified(response: &Response, verified_signed_ids: &[&str]) -> (r: Option<bool>)
    ensures
        r == response_signature_state(*response, strs_view(verified_signed_ids@)),
{
    if !response.base.has_signature || verified_signed_ids.len() == 0 {
        return None;
    }
    let ghost ids = strs_view(verified_signed_ids@);
    let mut i: usize = 0;
    while i < verified_signed_ids.len()
        invariant
            i <= verified_signed_ids@.len(),
            ids == strs_view(verified_signed_ids@),
            response.base.has_signature,
            verified_signed_ids@.len() > 0,
            forall|j: int| 0 <= j < i ==> ids[j] != response.base.id@,
        decreases verified_signed_ids.len() - i,
    {
        if str_eq(verified_signed_ids[i], response.base.id.as_str()) {
            assert(ids[i as int] == response.base.id@);
            assert(ids.contains(response.base.id@));
            return Some(true);
        }
        i = i + 1;
    }
    assert(!ids.contains(response.base.id@));
    Some(false)
}

/// What an IdP builds, an SP accepts: a response made by the IdP's
/// `create_response` whose assertion passed validation is accepted by
/// `process_response`, which yields the principal, session, authentication
/// instant and context, and issuer it was built with.
pub proof fn lemma_built_response_is_accepted(
    r: Response,
    o: crate::profiles::sso::web_browser::ResponseOptions,
    n: crate::protocol::NameId,
    times: crate::profiles::sso::web_browser::ResponseTimes,
    result: Result<AuthnResult, ProfileError>,
)
    requires
        crate::profiles::sso::idp::is_response_for(r, o, n, times),
        sp_processing(r, Seq::empty(), result),
    ensures
        result matches Ok(a) && {
            &&& a.name_id@ == n.value@
            &&& opt_string_view(a.name_id_format) == opt_string_view(n.format)
            &&& opt_string_view(a.session_index) == opt_string_view(o.session_index)
            &&& a.session_not_on_or_after == o.session_not_on_or_after
            &&& a.authn_instant == times.authn_instant
            &&& opt_string_view(a.authn_context_class_ref) == opt_string_view(o.authn_context_class_ref)
            &&& a.idp_entity_id@ == o.idp_entity_id@
            &&& a.response_id@ == r.base.id@
        },
{
    assert(r.assertions@[0].authn_statements.len() > 0);
    assert(first_with_authn(r.assertions@, 0) == Some(0int));
}

} // verus!
