//! The SAML 2.0 Name Identifier Mapping profile: asking an IdP for the
//! principal's identifier at another SP, and checking its answer.

use vstd::prelude::*;
use crate::profiles::error::ProfileError;
use crate::protocol::{
    generate_saml_id, irt_mismatch_message, irt_mismatch_text, is_fresh_header, opt_destination,
    same_name_id_or_encrypted, status_failure_message, status_failure_text, status_is, unix_now, Issuer,
    NameId, NameIdMappingRequest, NameIdMappingResponse, NameIdOrEncryptedId, NameIdPolicy, SamlVersion,
    Status, STATUS_SUCCESS,
};
use crate::text::{opt_str_view, opt_string_view, push_str, str_eq, to_owned_string};

verus! {

/// Creates a `NameIDMappingRequest` for `name_id`, asking for an identifier
/// in `target_format` (for `target_sp_name_qualifier`, when given), which
/// the IdP may create.
pub fn create_name_id_mapping_request(
    entity_id: &str,
    name_id: &NameId,
    target_format: &str,
    target_sp_name_qualifier: Option<&str>,
    destination: Option<&str>,
) -> (r: NameIdMappingRequest)
    ensures
        is_fresh_header(r.id, r.version, r.destination, r.consent, r.issuer, r.has_signature, entity_id@, opt_str_view(destination)),
        r.name_id matches NameIdOrEncryptedId::NameId(n) && n.view_fields() == name_id.view_fields(),
        opt_string_view(r.name_id_policy.format) == Some(target_format@),
        opt_string_view(r.name_id_policy.sp_name_qualifier) == opt_str_view(target_sp_name_qualifier),
        r.name_id_policy.allow_create,
{
    NameIdMappingRequest {
        id: generate_saml_id(),
        version: SamlVersion::V2_0,
        issue_instant: unix_now(),
        destination: opt_destination(destination),
        consent: None,
        issuer: Some(Issuer::entity(entity_id)),
        has_signature: false,
        name_id: NameIdOrEncryptedId::NameId(name_id.duplicate()),
        name_id_policy: NameIdPolicy {
            format: Some(to_owned_string(target_format)),
            sp_name_qualifier: opt_destination(target_sp_name_qualifier),
            allow_create: true,
        },
    }
}

/// The message for a response without `InResponseTo`.
pub open spec fn missing_mapping_irt_text(expected: Seq<char>) -> Seq<char> {
    "NameIDMappingResponse is missing InResponseTo (expected "@ + expected + ")"@
}

/// Checks a solicited `NameIDMappingResponse` and returns the mapped
/// identifier. Its `InResponseTo` must be present and equal
/// `expected_request_id` and its status Success (else
/// `NameIdMappingFailed`); a success without an identifier is
/// `MappingResponseMissingNameId`.
pub fn process_name_id_mapping_response(response: &NameIdMappingResponse, expected_request_id: &str) -> (r: Result<
    NameIdOrEncryptedId,
    ProfileError,
>)
    ensures
        match response.in_response_to {
            None => r matches Err(ProfileError::NameIdMappingFailed(m)) && m@ == missing_mapping_irt_text(
                expected_request_id@,
            ),
            Some(irt) => if irt@ != expected_request_id@ {
                r matches Err(ProfileError::NameIdMappingFailed(m)) && m@ == irt_mismatch_text(expected_request_id@, irt@)
            } else if response.status.status_code.value@ != STATUS_SUCCESS@ {
                r matches Err(ProfileError::NameIdMappingFailed(m)) && m@ == status_failure_text(response.status)
            } else {
                match response.name_id {
                    None => r matches Err(ProfileError::MappingResponseMissingNameId),
                    Some(n) => r matches Ok(x) && same_name_id_or_encrypted(x, n),
                }
            },
        },
{
    match &response.in_response_to {
        Some(irt) => {
            if !str_eq(irt.as_str(), expected_request_id) {
                return Err(ProfileError::NameIdMappingFailed(irt_mismatch_message(expected_request_id, irt.as_str())));
            }
        },
        None => {
            let mut m = to_owned_string("NameIDMappingResponse is missing InResponseTo (expected ");
            push_str(&mut m, expected_request_id);
            push_str(&mut m, ")");
            return Err(ProfileError::NameIdMappingFailed(m));
        },
    }
    if !response.status.is_success() {
        return Err(ProfileError::NameIdMappingFailed(status_failure_message(&response.status)));
    }
    match &response.name_id {
        Some(n) => Ok(n.duplicate()),
        None => Err(ProfileError::MappingResponseMissingNameId),
    }
}

/// Creates a successful `NameIDMappingResponse` carrying `mapped_name_id`.
pub fn create_name_id_mapping_response(
    entity_id: &str,
    in_response_to: &str,
    mapped_name_id: NameIdOrEncryptedId,
) -> (r: NameIdMappingResponse)
    ensures
        is_fresh_header(r.id, r.version, r.destination, r.consent, r.issuer, r.has_signature, entity_id@, None),
        r.in_response_to matches Some(irt) && irt@ == in_response_to@,
        status_is(r.status, STATUS_SUCCESS@, None, None),
        r.name_id == Some(mapped_name_id),
{
    NameIdMappingResponse {
        id: generate_saml_id(),
        version: SamlVersion::V2_0,
        issue_instant: unix_now(),
        destination: None,
        consent: None,
        issuer: Some(Issuer::entity(entity_id)),
        has_signature: false,
        in_response_to: Some(to_owned_string(in_response_to)),
        status: Status::success(),
        name_id: Some(mapped_name_id),
    }
}

} // verus!
