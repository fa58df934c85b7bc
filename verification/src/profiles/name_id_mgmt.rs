//! The SAML 2.0 Name Identifier Management profile: changing the value of a
//! name identifier (never its format) or terminating its use, and checking
//! the answer.

use vstd::prelude::*;
use crate::profiles::error::ProfileError;
use crate::protocol::{
    generate_saml_id, irt_mismatch_message, irt_mismatch_text, is_fresh_header, opt_destination,
    status_failure_message, status_failure_text, unix_now, Issuer, ManageNameIdRequest,
    ManageNameIdResponse, NameId, NameIdOrEncryptedId, NewIdOrTerminate, SamlVersion, Status,
    STATUS_SUCCESS,
};
use crate::text::{opt_str_view, str_eq, to_owned_string};

verus! {

/// Creates a `ManageNameIDRequest` giving `name_id` the value `new_value`.
pub fn create_change_name_id_request(entity_id: &str, name_id: &NameId, new_value: &str, destination: Option<&str>) -> (r: ManageNameIdRequest)
    ensures
        is_fresh_header(r.id, r.version, r.destination, r.consent, r.issuer, r.has_signature, entity_id@, opt_str_view(destination)),
        r.name_id matches NameIdOrEncryptedId::NameId(n) && n.view_fields() == name_id.view_fields(),
        r.new_id_or_terminate matches NewIdOrTerminate::NewId(v) && v@ == new_value@,
{
    ManageNameIdRequest {
        id: generate_saml_id(),
        version: SamlVersion::V2_0,
        issue_instant: unix_now(),
        destination: opt_destination(destination),
        consent: None,
        issuer: Some(Issuer::entity(entity_id)),
        has_signature: false,
        name_id: NameIdOrEncryptedId::NameId(name_id.duplicate()),
        new_id_or_terminate: NewIdOrTerminate::NewId(to_owned_string(new_value)),
    }
}

/// Creates a `ManageNameIDRequest` ending the use of `name_id`.
pub fn create_terminate_name_id_request(entity_id: &str, name_id: &NameId, destination: Option<&str>) -> (r: ManageNameIdRequest)
    ensures
        is_fresh_header(r.id, r.version, r.destination, r.consent, r.issuer, r.has_signature, entity_id@, opt_str_view(destination)),
        r.name_id matches NameIdOrEncryptedId::NameId(n) && n.view_fields() == name_id.view_fields(),
        r.new_id_or_terminate is Terminate,
{
    ManageNameIdRequest {
        id: generate_saml_id(),
        version: SamlVersion::V2_0,
        issue_instant: unix_now(),
        destination: opt_destination(destination),
        consent: None,
        issuer: Some(Issuer::entity(entity_id)),
        has_signature: false,
        name_id: NameIdOrEncryptedId::NameId(name_id.duplicate()),
        new_id_or_terminate: NewIdOrTerminate::Terminate,
    }
}

/// Creates a `ManageNameIDResponse` with the given status.
pub fn create_manage_name_id_response(
    entity_id: &str,
    in_response_to: &str,
    destination: Option<&str>,
    status: Status,
) -> (r: ManageNameIdResponse)
    ensures
        is_fresh_header(r.id, r.version, r.destination, r.consent, r.issuer, r.has_signature, entity_id@, opt_str_view(destination)),
        r.in_response_to matches Some(irt) && irt@ == in_response_to@,
        r.status == status,
{
    ManageNameIdResponse {
        id: generate_saml_id(),
        version: SamlVersion::V2_0,
        issue_instant: unix_now(),
        destination: opt_destination(destination),
        consent: None,
        issuer: Some(Issuer::entity(entity_id)),
        has_signature: false,
        in_response_to: Some(to_owned_string(in_response_to)),
        status,
    }
}

/// Whether the response's status is Success.
pub open spec fn manage_status_outcome(response: ManageNameIdResponse, r: Result<(), ProfileError>) -> bool {
    if response.status.status_code.value@ != STATUS_SUCCESS@ {
        r matches Err(ProfileError::NameIdManagementFailed(m)) && m@ == status_failure_text(response.status)
    } else {
        r is Ok
    }
}

/// Checks a `ManageNameIDResponse`: an `InResponseTo`, when present, must
/// equal `expected_request_id`, and the status must be Success; otherwise
/// it is `NameIdManagementFailed`.
pub fn process_manage_name_id_response(response: &ManageNameIdResponse, expected_request_id: &str) -> (r: Result<(), ProfileError>)
    ensures
        match response.in_response_to {
            Some(irt) => if irt@ != expected_request_id@ {
                r matches Err(ProfileError::NameIdManagementFailed(m)) && m@ == irt_mismatch_text(expected_request_id@, irt@)
            } else {
                manage_status_outcome(*response, r)
            },
            None => manage_status_outcome(*response, r),
        },
{
    match &response.in_response_to {
        Some(irt) => {
            if !str_eq(irt.as_str(), expected_request_id) {
                return Err(ProfileError::NameIdManagementFailed(irt_mismatch_message(expected_request_id, irt.as_str())));
            }
        },
        None => {},
    }
    if !response.status.is_success() {
        return Err(ProfileError::NameIdManagementFailed(status_failure_message(&response.status)));
    }
    Ok(())
}

} // verus!
