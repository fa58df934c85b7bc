//! The SAML 2.0 Artifact Resolution profile: the `ArtifactResolve` /
//! `ArtifactResponse` exchange, carried over a mutually authenticated SOAP
//! channel.

use vstd::prelude::*;
use crate::profiles::error::ProfileError;
use crate::protocol::{
    generate_saml_id, irt_mismatch_message, irt_mismatch_text, is_fresh_header, opt_destination,
    status_failure_message, status_failure_text, status_is, unix_now, ArtifactResolve, ArtifactResponse,
    Issuer, SamlVersion, Status, STATUS_REQUESTER, STATUS_SUCCESS,
};
use crate::text::{opt_str_view, push_str, str_eq, to_owned_string};

verus! {

/// Creates an `ArtifactResolve` from `entity_id` for the base64 `artifact`.
pub fn create_artifact_resolve(entity_id: &str, artifact: &str, destination: Option<&str>) -> (r: ArtifactResolve)
    ensures
        is_fresh_header(r.id, r.version, r.destination, r.consent, r.issuer, r.has_signature, entity_id@, opt_str_view(destination)),
        r.artifact@ == artifact@,
{
    ArtifactResolve {
        id: generate_saml_id(),
        version: SamlVersion::V2_0,
        issue_instant: unix_now(),
        destination: opt_destination(destination),
        consent: None,
        issuer: Some(Issuer::entity(entity_id)),
        has_signature: false,
        artifact: to_owned_string(artifact),
    }
}

/// The view of optional message bytes.
pub open spec fn opt_bytes_view(o: Option<Vec<u8>>) -> Option<Seq<u8>> {
    match o {
        Some(b) => Some(b@),
        None => None,
    }
}

/// The message for a response without `InResponseTo`.
pub open spec fn missing_irt_text(expected: Seq<char>) -> Seq<char> {
    "ArtifactResponse is missing InResponseTo (expected "@ + expected + ")"@
}

/// Checks a solicited `ArtifactResponse` and returns the resolved message.
/// Its `InResponseTo` must be present and equal `expected_request_id` (else
/// `ArtifactResolutionFailed`), and its status must be Success (else
/// `ArtifactResponseFailure` with the status message, or the code).
pub fn process_artifact_response(response: &ArtifactResponse, expected_request_id: &str) -> (r: Result<
    Option<Vec<u8>>,
    ProfileError,
>)
    ensures
        match response.in_response_to {
            None => r matches Err(ProfileError::ArtifactResolutionFailed(m)) && m@ == missing_irt_text(expected_request_id@),
            Some(irt) => if irt@ != expected_request_id@ {
                r matches Err(ProfileError::ArtifactResolutionFailed(m)) && m@ == irt_mismatch_text(expected_request_id@, irt@)
            } else if response.status.status_code.value@ != STATUS_SUCCESS@ {
                r matches Err(ProfileError::ArtifactResponseFailure(m)) && m@ == status_failure_text(response.status)
            } else {
                r matches Ok(msg) && opt_bytes_view(msg) == opt_bytes_view(response.message)
            },
        },
{
    match &response.in_response_to {
        Some(irt) => {
            if !str_eq(irt.as_str(), expected_request_id) {
                return Err(ProfileError::ArtifactResolutionFailed(irt_mismatch_message(expected_request_id, irt.as_str())));
            }
        },
        None => {
            let mut m = to_owned_string("ArtifactResponse is missing InResponseTo (expected ");
            push_str(&mut m, expected_request_id);
            push_str(&mut m, ")");
            return Err(ProfileError::ArtifactResolutionFailed(m));
        },
    }
    if !response.status.is_success() {
        return Err(ProfileError::ArtifactResponseFailure(status_failure_message(&response.status)));
    }
    match &response.message {
        Some(b) => Ok(Some(vstd::slice::slice_to_vec(b.as_slice()))),
        None => Ok(None),
    }
}

/// Creates a successful `ArtifactResponse` carrying `message`.
pub fn create_artifact_response(entity_id: &str, in_response_to: &str, message: Option<Vec<u8>>) -> (r: ArtifactResponse)
    ensures
        is_fresh_header(r.id, r.version, r.destination, r.consent, r.issuer, r.has_signature, entity_id@, None),
        r.in_response_to matches Some(irt) && irt@ == in_response_to@,
        status_is(r.status, STATUS_SUCCESS@, None, None),
        r.message == message,
{
    ArtifactResponse {
        id: generate_saml_id(),
        version: SamlVersion::V2_0,
        issue_instant: unix_now(),
        destination: None,
        consent: None,
        issuer: Some(Issuer::entity(entity_id)),
        has_signature: false,
        in_response_to: Some(to_owned_string(in_response_to)),
        status: Status::success(),
        message,
    }
}

/// Creates a Requester-failure `ArtifactResponse` with `error_message` and
/// no message.
pub fn create_artifact_response_error(entity_id: &str, in_response_to: &str, error_message: &str) -> (r: ArtifactResponse)
    ensures
        is_fresh_header(r.id, r.version, r.destination, r.consent, r.issuer, r.has_signature, entity_id@, None),
        r.in_response_to matches Some(irt) && irt@ == in_response_to@,
        status_is(r.status, STATUS_REQUESTER@, None, Some(error_message@)),
        r.message is None,
{
    ArtifactResponse {
        id: generate_saml_id(),
        version: SamlVersion::V2_0,
        issue_instant: unix_now(),
        destination: None,
        consent: None,
        issuer: Some(Issuer::entity(entity_id)),
        has_signature: false,
        in_response_to: Some(to_owned_string(in_response_to)),
        status: Status::requester(Some(to_owned_string(error_message))),
        message: None,
    }
}

} // verus!
