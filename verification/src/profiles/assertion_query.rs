//! The SAML 2.0 Assertion Query/Request profile: authentication, attribute
//! and authorization-decision queries, requests for assertions by ID, and
//! the check of the answering `Response`.

use vstd::prelude::*;
use crate::assertion::Attribute;
use crate::profiles::error::ProfileError;
use crate::protocol::{
    generate_saml_id, irt_mismatch_message, irt_mismatch_text, is_fresh_header, opt_destination,
    status_failure_message, status_failure_text, unix_now, Action, Assertion, AssertionIdRequest,
    AttributeQuery, AuthnQuery, AuthzDecisionQuery, Issuer, NameId, NameIdOrEncryptedId, NameIdView,
    RequestedAuthnContext, Response, SamlVersion, Subject, STATUS_SUCCESS,
};
use crate::text::{opt_str_view, opt_string_view, str_eq, to_owned_string};

verus! {

/// Whether `s` is the subject named by `n`, with no confirmations.
pub open spec fn is_subject_named(s: Subject, n: NameIdView) -> bool {
    &&& s.name_id matches Some(NameIdOrEncryptedId::NameId(x)) && x.view_fields() == n
    &&& s.subject_confirmations.len() == 0
}

/// The subject named by `n`.
fn subject_named(n: &NameId) -> (r: Subject)
    ensures
        is_subject_named(r, n.view_fields()),
{
    Subject { name_id: Some(NameIdOrEncryptedId::NameId(n.duplicate())), subject_confirmations: Vec::new() }
}

/// Creates an `AuthnQuery` for the authentication statements about the
/// subject.
pub fn create_authn_query(
    entity_id: &str,
    subject_name_id: &NameId,
    session_index: Option<&str>,
    requested_authn_context: Option<RequestedAuthnContext>,
    destination: Option<&str>,
) -> (r: AuthnQuery)
    ensures
        is_fresh_header(r.id, r.version, r.destination, r.consent, r.issuer, r.has_signature, entity_id@, opt_str_view(destination)),
        is_subject_named(r.subject, subject_name_id.view_fields()),
        opt_string_view(r.session_index) == opt_str_view(session_index),
        r.requested_authn_context == requested_authn_context,
{
    AuthnQuery {
        id: generate_saml_id(),
        version: SamlVersion::V2_0,
        issue_instant: unix_now(),
        destination: opt_destination(destination),
        consent: None,
        issuer: Some(Issuer::entity(entity_id)),
        has_signature: false,
        subject: subject_named(subject_name_id),
        session_index: opt_destination(session_index),
        requested_authn_context,
    }
}

/// Creates an `AttributeQuery` for the given attributes of the subject (all
/// of them when the list is empty).
pub fn create_attribute_query(
    entity_id: &str,
    subject_name_id: &NameId,
    attributes: Vec<Attribute>,
    destination: Option<&str>,
) -> (r: AttributeQuery)
    ensures
        is_fresh_header(r.id, r.version, r.destination, r.consent, r.issuer, r.has_signature, entity_id@, opt_str_view(destination)),
        is_subject_named(r.subject, subject_name_id.view_fields()),
        r.attributes == attributes,
{
    AttributeQuery {
        id: generate_saml_id(),
        version: SamlVersion::V2_0,
        issue_instant: unix_now(),
        destination: opt_destination(destination),
        consent: None,
        issuer: Some(Issuer::entity(entity_id)),
        has_signature: false,
        subject: subject_named(subject_name_id),
        attributes,
    }
}

/// Creates an `AuthzDecisionQuery` for the actions on `resource`, with no
/// evidence.
pub fn create_authz_decision_query(
    entity_id: &str,
    subject_name_id: &NameId,
    resource: &str,
    actions: Vec<Action>,
    destination: Option<&str>,
) -> (r: AuthzDecisionQuery)
    ensures
        is_fresh_header(r.id, r.version, r.destination, r.consent, r.issuer, r.has_signature, entity_id@, opt_str_view(destination)),
        is_subject_named(r.subject, subject_name_id.view_fields()),
        r.resource@ == resource@,
        r.actions == actions,
        r.evidence is None,
{
    AuthzDecisionQuery {
        id: generate_saml_id(),
        version: SamlVersion::V2_0,
        issue_instant: unix_now(),
        destination: opt_destination(destination),
        consent: None,
        issuer: Some(Issuer::entity(entity_id)),
        has_signature: false,
        subject: subject_named(subject_name_id),
        resource: to_owned_string(resource),
        actions,
        evidence: None,
    }
}

/// Creates an `AssertionIDRequest` for the assertions with the given IDs.
pub fn create_assertion_id_request(entity_id: &str, assertion_ids: Vec<String>, destination: Option<&str>) -> (r: AssertionIdRequest)
    ensures
        is_fresh_header(r.id, r.version, r.destination, r.consent, r.issuer, r.has_signature, entity_id@, opt_str_view(destination)),
        r.assertion_id_refs == assertion_ids,
{
    AssertionIdRequest {
        id: generate_saml_id(),
        version: SamlVersion::V2_0,
        issue_instant: unix_now(),
        destination: opt_destination(destination),
        consent: None,
        issuer: Some(Issuer::entity(entity_id)),
        has_signature: false,
        assertion_id_refs: assertion_ids,
    }
}

/// The outcome owed once the response is correlated: a failed status is
/// `ResponseFailure` with the status message (or the code); success yields
/// the assertions.
pub open spec fn query_status_outcome<'a>(response: &'a Response, r: Result<&'a [Assertion], ProfileError>) -> bool {
    if response.base.status.status_code.value@ != STATUS_SUCCESS@ {
        r matches Err(ProfileError::ResponseFailure(m)) && m@ == status_failure_text(response.base.status)
    } else {
        r matches Ok(a) && a@ == response.assertions@
    }
}

/// Checks the `Response` to a query and returns its assertions. An
/// `InResponseTo`, when present, must equal `expected_request_id`; the
/// status must be Success (else `ResponseFailure` with the status message,
/// or the code).
pub fn process_query_response<'a>(response: &'a Response, expected_request_id: &str) -> (r: Result<
    &'a [Assertion],
    ProfileError,
>)
    ensures
        match response.base.in_response_to {
            Some(irt) => if irt@ != expected_request_id@ {
                r matches Err(ProfileError::Other(m)) && m@ == irt_mismatch_text(expected_request_id@, irt@)
            } else {
                query_status_outcome(response, r)
            },
            None => query_status_outcome(response, r),
        },
{
    match &response.base.in_response_to {
        Some(irt) => {
            if !str_eq(irt.as_str(), expected_request_id) {
                return Err(ProfileError::Other(irt_mismatch_message(expected_request_id, irt.as_str())));
            }
        },
        None => {},
    }
    if !response.base.status.is_success() {
        return Err(ProfileError::ResponseFailure(status_failure_message(&response.base.status)));
    }
    Ok(response.assertions.as_slice())
}

} // verus!
