//! Identity Provider side of the profile: the success response of sections
//! 6.1 and 6.2 (one AttributeStatement always, the Level of Assurance filled
//! from the configuration when not given) and the error responses and
//! statuses of section 6.4.

use vstd::prelude::*;
use crate::assertion::{duplicate_attributes, AttributeStatement};
use crate::profiles::sso::idp::{
    create_error_response, create_response as create_sso_response, is_assertion_core, is_error_response_for,
    is_response_envelope,
};
use crate::profiles::sso::web_browser::{same_attributes, ResponseOptions, ResponseTimes};
use crate::protocol::{opt_string_clone, status_is, NameId, Response, Status};
use crate::text::{opt_str_view, opt_string_view, to_owned_string};
use super::config::SwedenConnectConfig;
use super::constants;

verus! {

/// The message of a user-cancelled authentication.
pub const CANCEL_MESSAGE: &'static str = "User cancelled the authentication";

/// The message of a determined fraud.
pub const FRAUD_MESSAGE: &'static str = "Authentication aborted due to fraud";

/// The message of a suspected fraud.
pub const POSSIBLE_FRAUD_MESSAGE: &'static str = "Authentication aborted due to suspected fraud";

/// The message of an unsatisfiable authentication context request.
pub const NO_AUTHN_CONTEXT_MESSAGE: &'static str = "No requested authentication context is supported";

/// Status for a user-cancelled authentication (section 6.4).
pub fn cancel_status() -> (r: Status)
    ensures
        status_is(r, constants::STATUS_RESPONDER@, Some(constants::STATUS_CANCEL@), Some(CANCEL_MESSAGE@)),
{
    Status::with_sub_status(constants::STATUS_RESPONDER, constants::STATUS_CANCEL, Some(to_owned_string(CANCEL_MESSAGE)))
}

/// Status for a determined fraud (section 6.4).
pub fn fraud_status() -> (r: Status)
    ensures
        status_is(r, constants::STATUS_RESPONDER@, Some(constants::STATUS_FRAUD@), Some(FRAUD_MESSAGE@)),
{
    Status::with_sub_status(constants::STATUS_RESPONDER, constants::STATUS_FRAUD, Some(to_owned_string(FRAUD_MESSAGE)))
}

/// Status for a suspected fraud (section 6.4).
pub fn possible_fraud_status() -> (r: Status)
    ensures
        status_is(
            r,
            constants::STATUS_RESPONDER@,
            Some(constants::STATUS_POSSIBLE_FRAUD@),
            Some(POSSIBLE_FRAUD_MESSAGE@),
        ),
{
    Status::with_sub_status(
        constants::STATUS_RESPONDER,
        constants::STATUS_POSSIBLE_FRAUD,
        Some(to_owned_string(POSSIBLE_FRAUD_MESSAGE)),
    )
}

/// Status for a request whose requested authentication context cannot be
/// satisfied (section 5.4.4).
pub fn no_authn_context_status() -> (r: Status)
    ensures
        status_is(
            r,
            constants::STATUS_REQUESTER@,
            Some(constants::STATUS_NO_AUTHN_CONTEXT@),
            Some(NO_AUTHN_CONTEXT_MESSAGE@),
        ),
{
    Status::with_sub_status(
        constants::STATUS_REQUESTER,
        constants::STATUS_NO_AUTHN_CONTEXT,
        Some(to_owned_string(NO_AUTHN_CONTEXT_MESSAGE)),
    )
}

/// The options the profile's response is built with: those given, the
/// class reference defaulting to the first configured Level of Assurance.
pub open spec fn sc_options(o: ResponseOptions, given: ResponseOptions, cfg: SwedenConnectConfig) -> bool {
    &&& o.idp_entity_id@ == given.idp_entity_id@
    &&& opt_string_view(o.in_response_to) == opt_string_view(given.in_response_to)
    &&& o.sp_entity_id@ == given.sp_entity_id@
    &&& o.acs_url@ == given.acs_url@
    &&& o.assertion_lifetime_seconds == given.assertion_lifetime_seconds
    &&& opt_string_view(o.session_index) == opt_string_view(given.session_index)
    &&& o.session_not_on_or_after == given.session_not_on_or_after
    &&& opt_string_view(o.authn_context_class_ref) == match given.authn_context_class_ref {
        Some(c) => Some(c@),
        None => if cfg.requested_loas.len() > 0 {
            Some(cfg.requested_loas@[0]@)
        } else {
            None
        },
    }
    &&& opt_string_view(o.client_address) == opt_string_view(given.client_address)
    &&& same_attributes(o.attributes@, given.attributes@)
}

/// Builds a success response by the profile (in cleartext; the assertion is
/// to be encrypted and the response signed before it is sent): the Web
/// Browser SSO response, with the class reference defaulting to the first
/// configured Level of Assurance and exactly one AttributeStatement, empty
/// when there are no attributes.
pub fn create_response(cfg: &SwedenConnectConfig, options: &ResponseOptions, principal_name_id: &NameId, now: i128) -> (r: Response)
    requires
        now + crate::protocol::seconds_span(options.assertion_lifetime_seconds as int) <= i128::MAX,
    ensures
        exists|o: ResponseOptions|
            #[trigger] sc_options(o, *options, *cfg) && is_response_envelope(r, o, (ResponseTimes { issue_instant: now, authn_instant: now }))
                && r.assertions.len() == 1 && is_assertion_core(r.assertions@[0], o, *principal_name_id, (ResponseTimes { issue_instant: now, authn_instant: now }))
                && r.assertions@[0].attribute_statements.len() == 1 && same_attributes(
                r.assertions@[0].attribute_statements@[0].attributes@,
                options.attributes@,
            ),
{
    let class_ref = match &options.authn_context_class_ref {
        Some(c) => Some(to_owned_string(c.as_str())),
        None => if cfg.requested_loas.len() > 0 {
            Some(to_owned_string(cfg.requested_loas[0].as_str()))
        } else {
            None
        },
    };
    let o = ResponseOptions {
        idp_entity_id: to_owned_string(options.idp_entity_id.as_str()),
        in_response_to: opt_string_clone(&options.in_response_to),
        sp_entity_id: to_owned_string(options.sp_entity_id.as_str()),
        acs_url: to_owned_string(options.acs_url.as_str()),
        assertion_lifetime_seconds: options.assertion_lifetime_seconds,
        session_index: opt_string_clone(&options.session_index),
        session_not_on_or_after: options.session_not_on_or_after,
        authn_context_class_ref: class_ref,
        client_address: opt_string_clone(&options.client_address),
        attributes: duplicate_attributes(options.attributes.as_slice()),
    };
    let times = ResponseTimes::at(now);
    let mut response = create_sso_response(&o, principal_name_id, times);
    let ghost before = response.assertions@;
    let mut a = response.assertions.remove(0);
    if a.attribute_statements.len() == 0 {
        a.attribute_statements.push(AttributeStatement { attributes: Vec::new() });
    }
    proof {
        assert(sc_options(o, *options, *cfg));
        assert(same_attributes(a.attribute_statements@[0].attributes@, options.attributes@));
    }
    response.assertions.insert(0, a);
    response
}

/// Builds an error response from the configured entity carrying `status`
/// and no assertions (section 6.4).
pub fn error_response(cfg: &SwedenConnectConfig, in_response_to: Option<&str>, acs_url: &str, status: Status, now: i128) -> (r: Response)
    ensures
        is_error_response_for(r, cfg.entity_id@, opt_str_view(in_response_to), acs_url@, status, now),
{
    create_error_response(cfg.entity_id.as_str(), in_response_to, acs_url, status, now)
}

} // verus!
