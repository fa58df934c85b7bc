//! SAML 2.0 Single Logout (SLO) profile (SAML Profiles section 4.4).
//!
//! - SP-initiated: the SP sends a LogoutRequest to each session authority.
//! - IdP-propagated: the IdP sends a LogoutRequest to every participant.
//!
//! The SP-side orchestrator is a transport-agnostic state machine: it never
//! performs I/O, it only decides what to send next and records outcomes.

use vstd::prelude::*;
use crate::metadata::types::endpoint::Endpoint;
use crate::metadata::types::idp::{find_endpoint_by_binding, first_with_binding};
use crate::metadata::types::role_descriptor::SsoDescriptorBase;
use crate::profiles::error::ProfileError;
use crate::profiles::session::SessionParticipant;
use crate::protocol::{
    generate_saml_id, instant_display, instant_string, is_entity_issuer, seconds_span, seconds_to_nanos, unsigned_seconds_to_nanos, is_generated_id, issuer_value,
    opt_string_clone, status_is,
    sub_status_value, unix_now, Issuer, LogoutRequest, LogoutResponse, NameId, NameIdOrEncryptedId,
    NameIdView, SamlVersion, Status, STATUS_PARTIAL_LOGOUT, STATUS_SUCCESS,
};
use crate::text::{
    opt_str_to_owned, opt_str_view, opt_string_view, push_str, str_eq, strings_clone, strings_view,
    to_owned_string,
};

verus! {

/// Logout reason: the user asked to log out.
pub const REASON_USER: &'static str = "urn:oasis:names:tc:SAML:2.0:logout:user";

/// Logout reason: an administrator ended the session.
pub const REASON_ADMIN: &'static str = "urn:oasis:names:tc:SAML:2.0:logout:admin";

/// How long a generated LogoutRequest stays valid, in seconds.
pub const LOGOUT_REQUEST_VALIDITY_SECONDS: i64 = 300;

/// `LOGOUT_REQUEST_VALIDITY_SECONDS` after the instant `t`, saturating at
/// the largest instant.
pub open spec fn default_not_on_or_after(t: i128) -> i128 {
    if t + seconds_span(LOGOUT_REQUEST_VALIDITY_SECONDS as int) > i128::MAX {
        i128::MAX
    } else {
        (t + seconds_span(LOGOUT_REQUEST_VALIDITY_SECONDS as int)) as i128
    }
}

/// `LOGOUT_REQUEST_VALIDITY_SECONDS` after the instant `t`, saturating at
/// the largest instant.
fn add_validity(t: i128) -> (r: i128)
    ensures
        r == default_not_on_or_after(t),
{
    let span = seconds_to_nanos(LOGOUT_REQUEST_VALIDITY_SECONDS);
    if t > i128::MAX - span {
        i128::MAX
    } else {
        t + span
    }
}

/// Options for creating an SP-initiated LogoutRequest.
#[derive(Debug, Clone)]
pub struct SpLogoutRequestOptions {
    /// SP entity ID (Issuer).
    pub sp_entity_id: String,
    /// NameID of the principal being logged out.
    pub name_id: NameId,
    /// Session indexes to terminate.
    pub session_indexes: Vec<String>,
    /// Logout reason URI.
    pub reason: Option<String>,
    /// Destination (IdP SLO endpoint).
    pub destination: Option<String>,
    /// Request validity (NotOnOrAfter), in nanoseconds since the epoch.
    /// Default: five minutes after the issue instant.
    pub not_on_or_after: Option<i128>,
}

/// The parts of a LogoutRequest that its creator fixes: a fresh ID, version
/// 2.0, the issuer, destination, validity, reason, principal and sessions.
pub open spec fn is_logout_request_for(
    r: LogoutRequest,
    issuer: Seq<char>,
    destination: Option<Seq<char>>,
    not_on_or_after: Option<i128>,
    reason: Option<Seq<char>>,
    name_id: NameIdView,
    session_indexes: Seq<Seq<char>>,
) -> bool {
    &&& is_generated_id(r.id@)
    &&& r.version == SamlVersion::V2_0
    &&& opt_string_view(r.destination) == destination
    &&& r.consent is None
    &&& is_entity_issuer(r.issuer, issuer)
    &&& !r.has_signature
    &&& r.not_on_or_after == Some(
        match not_on_or_after {
            Some(t) => t,
            None => default_not_on_or_after(r.issue_instant),
        },
    )
    &&& opt_string_view(r.reason) == reason
    &&& r.name_id matches NameIdOrEncryptedId::NameId(n) && n.view_fields() == name_id
    &&& strings_view(r.session_indexes@) == session_indexes
}

/// Create an SP-initiated LogoutRequest.
///
/// Per Profiles 4.4.4.1 the request names the principal and the sessions to
/// end; an SP without an entity ID cannot issue one.
pub fn create_sp_logout_request(options: &SpLogoutRequestOptions) -> (r: Result<LogoutRequest, ProfileError>)
    ensures
        options.sp_entity_id@.len() == 0 <==> r is Err,
        r matches Err(e) ==> e == ProfileError::MissingIssuer,
        r matches Ok(req) ==> is_logout_request_for(
            req,
            options.sp_entity_id@,
            opt_string_view(options.destination),
            options.not_on_or_after,
            opt_string_view(options.reason),
            options.name_id.view_fields(),
            strings_view(options.session_indexes@),
        ),
{
    if options.sp_entity_id.as_str().unicode_len() == 0 {
        return Err(ProfileError::MissingIssuer);
    }
    let now = unix_now();
    let not_on_or_after = match options.not_on_or_after {
        Some(t) => t,
        None => add_validity(now),
    };
    Ok(LogoutRequest {
        id: generate_saml_id(),
        version: SamlVersion::V2_0,
        issue_instant: now,
        destination: opt_string_clone(&options.destination),
        consent: None,
        issuer: Some(Issuer::entity(options.sp_entity_id.as_str())),
        has_signature: false,
        not_on_or_after: Some(not_on_or_after),
        reason: opt_string_clone(&options.reason),
        name_id: NameIdOrEncryptedId::NameId(options.name_id.duplicate()),
        session_indexes: strings_clone(&options.session_indexes),
    })
}

/// Result of propagating a logout to session participants.
#[derive(Debug)]
pub struct LogoutPropagationResult {
    /// Total number of session participants that needed logout.
    pub total_participants: usize,
    /// Number that were successfully logged out.
    pub successful_logouts: usize,
    /// Entity IDs of participants that failed to log out.
    pub failed_participants: Vec<String>,
}

impl LogoutPropagationResult {
    /// Whether all participants were successfully logged out.
    pub fn is_complete(&self) -> (r: bool)
        ensures
            r == (self.successful_logouts == self.total_participants),
    {
        self.successful_logouts == self.total_participants
    }

    /// Whether at least one but not all participants were logged out.
    pub fn is_partial(&self) -> (r: bool)
        ensures
            r == (0 < self.successful_logouts && self.successful_logouts < self.total_participants),
    {
        self.successful_logouts > 0 && self.successful_logouts < self.total_participants
    }
}

/// A propagation result is never both complete and partial.
pub proof fn lemma_complete_excludes_partial(r: LogoutPropagationResult)
    ensures
        !(r.successful_logouts == r.total_participants && (0 < r.successful_logouts && r.successful_logouts
            < r.total_participants)),
{
}

/// Create a LogoutRequest to propagate to a session participant.
///
/// Used by the IdP to send logout requests to all SPs in the session, with
/// the user reason and the participant's own name identifier.
pub fn create_idp_propagation_request(idp_entity_id: &str, participant: &SessionParticipant) -> (r: LogoutRequest)
    ensures
        is_logout_request_for(
            r,
            idp_entity_id@,
            opt_string_view(participant.slo_url),
            None,
            Some(REASON_USER@),
            (
                participant.name_id_value@,
                opt_string_view(participant.name_id_format),
                opt_string_view(participant.name_qualifier),
                opt_string_view(participant.sp_name_qualifier),
                None,
            ),
            strings_view(participant.session_indexes@),
        ),
{
    let now = unix_now();
    let name_id = NameId {
        value: to_owned_string(participant.name_id_value.as_str()),
        format: opt_string_clone(&participant.name_id_format),
        name_qualifier: opt_string_clone(&participant.name_qualifier),
        sp_name_qualifier: opt_string_clone(&participant.sp_name_qualifier),
        sp_provided_id: None,
    };
    LogoutRequest {
        id: generate_saml_id(),
        version: SamlVersion::V2_0,
        issue_instant: now,
        destination: opt_string_clone(&participant.slo_url),
        consent: None,
        issuer: Some(Issuer::entity(idp_entity_id)),
        has_signature: false,
        not_on_or_after: Some(add_validity(now)),
        reason: Some(to_owned_string(REASON_USER)),
        name_id: NameIdOrEncryptedId::NameId(name_id),
        session_indexes: strings_clone(&participant.session_indexes),
    }
}

/// The parts of a LogoutResponse that its creator fixes.
pub open spec fn is_logout_response_for(
    r: LogoutResponse,
    entity_id: Seq<char>,
    in_response_to: Seq<char>,
    destination: Option<Seq<char>>,
) -> bool {
    &&& is_generated_id(r.id@)
    &&& r.version == SamlVersion::V2_0
    &&& opt_string_view(r.destination) == destination
    &&& r.consent is None
    &&& is_entity_issuer(r.issuer, entity_id)
    &&& !r.has_signature
    &&& opt_string_view(r.in_response_to) == Some(in_response_to)
}

/// Create a LogoutResponse (for both SP and IdP).
pub fn create_logout_response(
    entity_id: &str,
    in_response_to: &str,
    destination: Option<&str>,
    status: Status,
) -> (r: LogoutResponse)
    ensures
        is_logout_response_for(r, entity_id@, in_response_to@, opt_str_view(destination)),
        r.status == status,
{
    LogoutResponse {
        id: generate_saml_id(),
        version: SamlVersion::V2_0,
        issue_instant: unix_now(),
        destination: opt_str_to_owned(destination),
        consent: None,
        issuer: Some(Issuer::entity(entity_id)),
        has_signature: false,
        in_response_to: Some(to_owned_string(in_response_to)),
        status,
    }
}

/// Create a success LogoutResponse.
pub fn create_logout_response_success(entity_id: &str, in_response_to: &str, destination: Option<&str>) -> (r:
    LogoutResponse)
    ensures
        is_logout_response_for(r, entity_id@, in_response_to@, opt_str_view(destination)),
        status_is(r.status, STATUS_SUCCESS@, None, None),
{
    create_logout_response(entity_id, in_response_to, destination, Status::success())
}

/// The message of a partial logout response.
pub const PARTIAL_LOGOUT_MESSAGE: &'static str = "Some session participants could not be logged out";

/// Create a partial logout response (some participants failed): Success with
/// the PartialLogout second-level code.
pub fn create_logout_response_partial(entity_id: &str, in_response_to: &str, destination: Option<&str>) -> (r:
    LogoutResponse)
    ensures
        is_logout_response_for(r, entity_id@, in_response_to@, opt_str_view(destination)),
        status_is(r.status, STATUS_SUCCESS@, Some(STATUS_PARTIAL_LOGOUT@), Some(PARTIAL_LOGOUT_MESSAGE@)),
{
    let status = Status::with_sub_status(
        STATUS_SUCCESS,
        STATUS_PARTIAL_LOGOUT,
        Some(to_owned_string(PARTIAL_LOGOUT_MESSAGE)),
    );
    create_logout_response(entity_id, in_response_to, destination, status)
}

// ── SP-side logout orchestration ────────────────────────────────────────────

/// State of one entity in an SP-driven multi-entity logout.
#[derive(Debug, Clone, PartialEq)]
pub enum TargetLogoutState {
    /// No LogoutRequest issued yet.
    Pending,
    /// A LogoutRequest was issued and we await the response.
    InProgress {
        /// The LogoutRequest ID (matched against InResponseTo).
        request_id: String,
    },
    /// The entity confirmed the logout.
    Succeeded,
    /// The logout failed (transport error or error status).
    Failed {
        /// Why the logout failed.
        reason: String,
    },
}

/// The abstract state of one target.
pub enum StateView {
    /// No request issued yet.
    Pending,
    /// Awaiting the response to the request with this ID.
    InProgress(Seq<char>),
    /// Logged out.
    Succeeded,
    /// Failed, for this reason.
    Failed(Seq<char>),
}

/// The abstract view of a target state.
pub open spec fn state_view(s: TargetLogoutState) -> StateView {
    match s {
        TargetLogoutState::Pending => StateView::Pending,
        TargetLogoutState::InProgress { request_id } => StateView::InProgress(request_id@),
        TargetLogoutState::Succeeded => StateView::Succeeded,
        TargetLogoutState::Failed { reason } => StateView::Failed(reason@),
    }
}

/// Whether a target reached a final state.
pub open spec fn is_final(s: StateView) -> bool {
    s is Succeeded || s is Failed
}

/// A session authority/participant the SP must log out from.
#[derive(Debug, Clone)]
pub struct LogoutTarget {
    /// The entity ID of the IdP (or other participant).
    pub entity_id: String,
    /// The NameID this entity knows the principal by.
    pub name_id: NameId,
    /// Session indexes to terminate at this entity.
    pub session_indexes: Vec<String>,
    /// The entity's SLO endpoint location.
    pub slo_url: String,
    /// The binding to use for the SLO endpoint.
    pub slo_binding: String,
}

/// A LogoutRequest ready to be delivered by the caller's transport.
#[derive(Debug)]
pub struct PendingLogoutRequest {
    /// The entity this request targets.
    pub entity_id: String,
    /// The LogoutRequest (sign before delivery for front-channel bindings).
    pub request: LogoutRequest,
    /// The binding to deliver it over.
    pub binding: String,
    /// The endpoint location to deliver it to.
    pub destination: String,
}

/// Outcome of correlating one LogoutResponse.
#[derive(Debug, Clone)]
pub struct LogoutResponseOutcome {
    /// The entity that responded.
    pub entity_id: String,
    /// Whether the top-level status was Success.
    pub success: bool,
    /// Whether the entity reported PartialLogout.
    pub partial: bool,
}

/// The abstract state of an orchestrator: the SP, the reason sent in every
/// request, and the targets with their states, in registration order.
pub struct OrchestratorView {
    /// The SP entity ID.
    pub sp_entity_id: Seq<char>,
    /// The logout reason URI.
    pub reason: Option<Seq<char>>,
    /// The registered targets.
    pub targets: Seq<LogoutTarget>,
    /// The state of each target.
    pub states: Seq<StateView>,
}

/// Transport-agnostic state machine for SP-initiated logout across all
/// entities that hold a session for the principal.
///
/// Drive it like this:
///
/// 1. `add_target()` for every entity that issued information about the
///    subject (typically the session-issuing IdPs).
/// 2. Loop: `next_request()` → sign if required → deliver over the returned
///    binding; call `handle_response()` with the LogoutResponse, or
///    `mark_failed()` on transport errors.
/// 3. When `is_complete()` is true, inspect `progress()` and perform the
///    local logout.
#[derive(Debug)]
pub struct SpLogoutOrchestrator {
    sp_entity_id: String,
    reason: Option<String>,
    targets: Vec<(LogoutTarget, TargetLogoutState)>,
}

impl View for SpLogoutOrchestrator {
    type V = OrchestratorView;

    closed spec fn view(&self) -> OrchestratorView {
        OrchestratorView {
            sp_entity_id: self.sp_entity_id@,
            reason: opt_string_view(self.reason),
            targets: Seq::new(self.targets@.len(), |i: int| self.targets@[i].0),
            states: Seq::new(self.targets@.len(), |i: int| state_view(self.targets@[i].1)),
        }
    }
}

/// The position of the first pending target at or after `i`.
pub open spec fn first_pending(states: Seq<StateView>, i: int) -> Option<int>
    decreases states.len() - i,
{
    if i < 0 || i >= states.len() {
        None
    } else if states[i] is Pending {
        Some(i)
    } else {
        first_pending(states, i + 1)
    }
}

/// The position of the first target at or after `i` awaiting the response to
/// request `id`.
pub open spec fn first_in_progress(states: Seq<StateView>, id: Seq<char>, i: int) -> Option<int>
    decreases states.len() - i,
{
    if i < 0 || i >= states.len() {
        None
    } else if states[i] == StateView::InProgress(id) {
        Some(i)
    } else {
        first_in_progress(states, id, i + 1)
    }
}

/// The position of the first target at or after `i` with this entity ID.
pub open spec fn first_target(targets: Seq<LogoutTarget>, entity_id: Seq<char>, i: int) -> Option<int>
    decreases targets.len() - i,
{
    if i < 0 || i >= targets.len() {
        None
    } else if targets[i].entity_id@ == entity_id {
        Some(i)
    } else {
        first_target(targets, entity_id, i + 1)
    }
}

/// The number of targets in the first `n` that succeeded.
pub open spec fn count_succeeded(states: Seq<StateView>, n: int) -> nat
    decreases n,
{
    if n <= 0 {
        0
    } else {
        count_succeeded(states, n - 1) + if states[n - 1] is Succeeded {
            1nat
        } else {
            0nat
        }
    }
}

/// The number of targets in the first `n` that are still pending.
pub open spec fn count_pending(states: Seq<StateView>, n: int) -> nat
    decreases n,
{
    if n <= 0 {
        0
    } else {
        count_pending(states, n - 1) + if states[n - 1] is Pending {
            1nat
        } else {
            0nat
        }
    }
}

/// The entity IDs of the failed targets among the first `n`, in order.
pub open spec fn failed_entities(targets: Seq<LogoutTarget>, states: Seq<StateView>, n: int) -> Seq<Seq<char>>
    decreases n,
{
    if n <= 0 {
        Seq::empty()
    } else if states[n - 1] is Failed {
        failed_entities(targets, states, n - 1).push(targets[n - 1].entity_id@)
    } else {
        failed_entities(targets, states, n - 1)
    }
}

/// The state a target moves to when its LogoutResponse carries `status`:
/// PartialLogout counts as a failure, Success as success, and any other code
/// as a failure for that code.
pub open spec fn outcome_state(status: Status) -> StateView {
    if sub_status_value(status) == Some(STATUS_PARTIAL_LOGOUT@) {
        StateView::Failed(STATUS_PARTIAL_LOGOUT@)
    } else if status.status_code.value@ == STATUS_SUCCESS@ {
        StateView::Succeeded
    } else {
        StateView::Failed(status.status_code.value@)
    }
}

/// The request handed out for target `t` of an orchestrator with SP `sp` and
/// reason `reason`.
pub open spec fn is_pending_request_for(p: PendingLogoutRequest, t: LogoutTarget, sp: Seq<char>, reason: Option<
    Seq<char>>) -> bool {
    &&& p.entity_id@ == t.entity_id@
    &&& p.binding@ == t.slo_binding@
    &&& p.destination@ == t.slo_url@
    &&& is_logout_request_for(
        p.request,
        sp,
        Some(t.slo_url@),
        None,
        reason,
        t.name_id.view_fields(),
        strings_view(t.session_indexes@),
    )
}

/// The message when a LogoutResponse has no InResponseTo.
pub const NO_IN_RESPONSE_TO_MESSAGE: &'static str = "LogoutResponse has no InResponseTo";

/// The message when a LogoutResponse answers no outstanding request.
pub open spec fn unmatched_response_message(in_response_to: Seq<char>) -> Seq<char> {
    "LogoutResponse InResponseTo "@ + in_response_to + " matches no outstanding request"@
}

/// The message when a LogoutResponse comes from another entity than the
/// one asked.
pub open spec fn issuer_mismatch_message(issuer: Seq<char>, entity: Seq<char>) -> Seq<char> {
    "LogoutResponse issuer "@ + issuer + " does not match target entity "@ + entity
}

impl SpLogoutOrchestrator {
    /// Create an orchestrator for the given SP entity ID, with the user
    /// reason and no targets.
    pub fn new(sp_entity_id: &str) -> (r: Self)
        ensures
            r@.sp_entity_id == sp_entity_id@,
            r@.reason == Some(REASON_USER@),
            r@.targets.len() == 0,
            r@.states.len() == 0,
    {
        let r = SpLogoutOrchestrator {
            sp_entity_id: to_owned_string(sp_entity_id),
            reason: Some(to_owned_string(REASON_USER)),
            targets: Vec::new(),
        };
        assert(r@.targets.len() == 0);
        r
    }

    /// Set the logout reason URI included in every request.
    pub fn with_reason(self, reason: &str) -> (r: Self)
        ensures
            r@.sp_entity_id == self@.sp_entity_id,
            r@.reason == Some(reason@),
            r@.targets == self@.targets,
            r@.states == self@.states,
    {
        let mut s = self;
        s.reason = Some(to_owned_string(reason));
        proof {
            assert(s@.targets =~= self@.targets);
            assert(s@.states =~= self@.states);
        }
        s
    }

    /// Register an entity that must be logged out; it starts pending.
    pub fn add_target(&mut self, target: LogoutTarget)
        ensures
            final(self)@.sp_entity_id == old(self)@.sp_entity_id,
            final(self)@.reason == old(self)@.reason,
            final(self)@.targets == old(self)@.targets.push(target),
            final(self)@.states == old(self)@.states.push(StateView::Pending),
    {
        let ghost old_v = self@;
        self.targets.push((target, TargetLogoutState::Pending));
        proof {
            assert(self@.targets =~= old_v.targets.push(target));
            assert(self@.states =~= old_v.states.push(StateView::Pending));
        }
    }

    /// Replaces the state of target `i`, keeping everything else.
    fn set_state(&mut self, i: usize, state: TargetLogoutState)
        requires
            i < old(self).targets.len(),
        ensures
            final(self)@.sp_entity_id == old(self)@.sp_entity_id,
            final(self)@.reason == old(self)@.reason,
            final(self)@.targets == old(self)@.targets,
            final(self)@.states == old(self)@.states.update(i as int, state_view(state)),
            final(self).targets.len() == old(self).targets.len(),
    {
        let ghost old_v = self@;
        let ghost old_t = self.targets@;
        let (target, _previous) = self.targets.remove(i);
        self.targets.insert(i, (target, state));
        proof {
            assert(self.targets@ =~= old_t.update(i as int, (old_t[i as int].0, state)));
            assert(self@.targets =~= old_v.targets);
            assert(self@.states =~= old_v.states.update(i as int, state_view(state)));
        }
    }

    /// The position of the first pending target, if any.
    fn find_pending(&self) -> (r: Option<usize>)
        ensures
            match r {
                Some(i) => first_pending(self@.states, 0) == Some(i as int) && i < self.targets.len(),
                None => first_pending(self@.states, 0) is None,
            },
    {
        let mut i: usize = 0;
        while i < self.targets.len()
            invariant
                i <= self.targets.len(),
                first_pending(self@.states, 0) == first_pending(self@.states, i as int),
            decreases self.targets.len() - i,
        {
            let is_pending = match &self.targets[i].1 {
                TargetLogoutState::Pending => true,
                _ => false,
            };
            assert(self@.states[i as int] == state_view(self.targets@[i as int].1));
            if is_pending {
                return Some(i);
            }
            i = i + 1;
        }
        None
    }

    /// Produce the next LogoutRequest to deliver, if any target is pending.
    ///
    /// The first pending target is marked in progress with the request's ID,
    /// so that the matching LogoutResponse can be correlated by
    /// `handle_response()`. An SP with an empty entity ID cannot issue
    /// requests.
    pub fn next_request(&mut self) -> (r: Result<Option<PendingLogoutRequest>, ProfileError>)
        ensures
            final(self)@.sp_entity_id == old(self)@.sp_entity_id,
            final(self)@.reason == old(self)@.reason,
            final(self)@.targets == old(self)@.targets,
            match first_pending(old(self)@.states, 0) {
                None => r matches Ok(None) && final(self)@.states == old(self)@.states,
                Some(i) => if old(self)@.sp_entity_id.len() == 0 {
                    r matches Err(e) && e == ProfileError::MissingIssuer && final(self)@.states == old(
                        self,
                    )@.states
                } else {
                    r matches Ok(Some(p)) && is_pending_request_for(
                        p,
                        old(self)@.targets[i],
                        old(self)@.sp_entity_id,
                        old(self)@.reason,
                    ) && final(self)@.states == old(self)@.states.update(i, StateView::InProgress(p.request.id@))
                },
            },
    {
        let ghost old_v = self@;
        let i = match self.find_pending() {
            None => return Ok(None),
            Some(i) => i,
        };
        let options = SpLogoutRequestOptions {
            sp_entity_id: to_owned_string(self.sp_entity_id.as_str()),
            name_id: self.targets[i].0.name_id.duplicate(),
            session_indexes: strings_clone(&self.targets[i].0.session_indexes),
            reason: opt_string_clone(&self.reason),
            destination: Some(to_owned_string(self.targets[i].0.slo_url.as_str())),
            not_on_or_after: None,
        };
        let request = match create_sp_logout_request(&options) {
            Ok(req) => req,
            Err(e) => return Err(e),
        };
        let pending = PendingLogoutRequest {
            entity_id: to_owned_string(self.targets[i].0.entity_id.as_str()),
            binding: to_owned_string(self.targets[i].0.slo_binding.as_str()),
            destination: to_owned_string(self.targets[i].0.slo_url.as_str()),
            request,
        };
        let request_id = to_owned_string(pending.request.id.as_str());
        self.set_state(i, TargetLogoutState::InProgress { request_id });
        proof {
            assert(self@.targets =~= old_v.targets);
            assert(self@.states =~= old_v.states.update(i as int, StateView::InProgress(pending.request.id@)));
        }
        Ok(Some(pending))
    }
}

/// A response with `status` from target `i` (entity `entity`) was recorded:
/// the outcome reports it and the target moved to its final state.
pub open spec fn records_outcome(
    r: Result<LogoutResponseOutcome, ProfileError>,
    old_states: Seq<StateView>,
    new_states: Seq<StateView>,
    i: int,
    entity: Seq<char>,
    status: Status,
) -> bool {
    &&& r matches Ok(o)
    &&& o.entity_id@ == entity
    &&& o.success == (status.status_code.value@ == STATUS_SUCCESS@)
    &&& o.partial == (sub_status_value(status) == Some(STATUS_PARTIAL_LOGOUT@))
    &&& new_states == old_states.update(i, outcome_state(status))
}

impl SpLogoutOrchestrator {
    /// The position of the first target awaiting the response to request `id`.
    fn find_in_progress(&self, id: &str) -> (r: Option<usize>)
        ensures
            match r {
                Some(i) => first_in_progress(self@.states, id@, 0) == Some(i as int) && i < self.targets.len(),
                None => first_in_progress(self@.states, id@, 0) is None,
            },
    {
        let mut i: usize = 0;
        while i < self.targets.len()
            invariant
                i <= self.targets.len(),
                first_in_progress(self@.states, id@, 0) == first_in_progress(self@.states, id@, i as int),
            decreases self.targets.len() - i,
        {
            let found = match &self.targets[i].1 {
                TargetLogoutState::InProgress { request_id } => str_eq(request_id.as_str(), id),
                _ => false,
            };
            assert(self@.states[i as int] == state_view(self.targets@[i as int].1));
            if found {
                return Some(i);
            }
            i = i + 1;
        }
        None
    }

    /// The position of the first target with this entity ID.
    fn find_target(&self, entity_id: &str) -> (r: Option<usize>)
        ensures
            match r {
                Some(i) => first_target(self@.targets, entity_id@, 0) == Some(i as int) && i < self.targets.len(),
                None => first_target(self@.targets, entity_id@, 0) is None,
            },
    {
        let mut i: usize = 0;
        while i < self.targets.len()
            invariant
                i <= self.targets.len(),
                first_target(self@.targets, entity_id@, 0) == first_target(self@.targets, entity_id@, i as int),
            decreases self.targets.len() - i,
        {
            assert(self@.targets[i as int] == self.targets@[i as int].0);
            if str_eq(self.targets[i].0.entity_id.as_str(), entity_id) {
                return Some(i);
            }
            i = i + 1;
        }
        None
    }

    /// Correlate a LogoutResponse with its in-progress request and record the
    /// outcome.
    ///
    /// The response is matched by InResponseTo; if an Issuer is present it
    /// must match the target's entity ID. On a match the target becomes
    /// final: Succeeded for Success, Failed for PartialLogout or an error
    /// code. Otherwise nothing changes and an error says why.
    pub fn handle_response(&mut self, response: &LogoutResponse) -> (r: Result<LogoutResponseOutcome, ProfileError>)
        ensures
            final(self)@.sp_entity_id == old(self)@.sp_entity_id,
            final(self)@.reason == old(self)@.reason,
            final(self)@.targets == old(self)@.targets,
            match response.in_response_to {
                None => r matches Err(ProfileError::Other(m)) && m@ == NO_IN_RESPONSE_TO_MESSAGE@
                    && final(self)@.states == old(self)@.states,
                Some(irt) => match first_in_progress(old(self)@.states, irt@, 0) {
                    None => r matches Err(ProfileError::Other(m)) && m@ == unmatched_response_message(irt@)
                        && final(self)@.states == old(self)@.states,
                    Some(i) => {
                        let entity = old(self)@.targets[i].entity_id@;
                        match issuer_value(response.issuer) {
                            Some(iv) => if iv != entity {
                                r matches Err(ProfileError::Other(m)) && m@ == issuer_mismatch_message(iv, entity)
                                    && final(self)@.states == old(self)@.states
                            } else {
                                records_outcome(r, old(self)@.states, final(self)@.states, i, entity, response.status)
                            },
                            None => records_outcome(r, old(self)@.states, final(self)@.states, i, entity, response.status),
                        }
                    },
                },
            },
    {
        let ghost old_v = self@;
        let in_response_to = match &response.in_response_to {
            Some(irt) => irt,
            None => return Err(ProfileError::Other(to_owned_string(NO_IN_RESPONSE_TO_MESSAGE))),
        };
        let i = match self.find_in_progress(in_response_to.as_str()) {
            Some(i) => i,
            None => {
                let mut m = to_owned_string("LogoutResponse InResponseTo ");
                push_str(&mut m, in_response_to.as_str());
                push_str(&mut m, " matches no outstanding request");
                return Err(ProfileError::Other(m));
            },
        };
        assert(old_v.targets[i as int] == self.targets@[i as int].0);
        if let Some(issuer) = &response.issuer {
            if !str_eq(issuer.value.as_str(), self.targets[i].0.entity_id.as_str()) {
                let mut m = to_owned_string("LogoutResponse issuer ");
                push_str(&mut m, issuer.value.as_str());
                push_str(&mut m, " does not match target entity ");
                push_str(&mut m, self.targets[i].0.entity_id.as_str());
                return Err(ProfileError::Other(m));
            }
        }
        let success = response.status.is_success();
        let partial = match &response.status.status_code.sub_status {
            Some(sub) => str_eq(sub.value.as_str(), STATUS_PARTIAL_LOGOUT),
            None => false,
        };
        let state = if partial {
            TargetLogoutState::Failed { reason: to_owned_string(STATUS_PARTIAL_LOGOUT) }
        } else if success {
            TargetLogoutState::Succeeded
        } else {
            TargetLogoutState::Failed { reason: to_owned_string(response.status.status_code.value.as_str()) }
        };
        let entity_id = to_owned_string(self.targets[i].0.entity_id.as_str());
        self.set_state(i, state);
        Ok(LogoutResponseOutcome { entity_id, success, partial })
    }

    /// Record a transport-level failure for an entity (e.g., the SOAP call
    /// failed or the front-channel response never arrived). The first target
    /// with this entity ID becomes Failed; an unknown entity changes nothing.
    pub fn mark_failed(&mut self, entity_id: &str, failure_reason: &str)
        ensures
            final(self)@.sp_entity_id == old(self)@.sp_entity_id,
            final(self)@.reason == old(self)@.reason,
            final(self)@.targets == old(self)@.targets,
            match first_target(old(self)@.targets, entity_id@, 0) {
                None => final(self)@.states == old(self)@.states,
                Some(i) => final(self)@.states == old(self)@.states.update(i, StateView::Failed(failure_reason@)),
            },
    {
        match self.find_target(entity_id) {
            Some(i) => self.set_state(i, TargetLogoutState::Failed { reason: to_owned_string(failure_reason) }),
            None => {},
        }
    }

    /// The current state of the first target with this entity ID.
    pub fn target_state(&self, entity_id: &str) -> (r: Option<&TargetLogoutState>)
        ensures
            match first_target(self@.targets, entity_id@, 0) {
                None => r is None,
                Some(i) => r matches Some(s) && state_view(*s) == self@.states[i],
            },
    {
        match self.find_target(entity_id) {
            Some(i) => Some(&self.targets[i].1),
            None => None,
        }
    }

    /// Whether every target reached a final state (succeeded or failed).
    pub fn is_complete(&self) -> (r: bool)
        ensures
            r == (forall|i: int| 0 <= i < self@.states.len() ==> is_final(#[trigger] self@.states[i])),
    {
        let mut i: usize = 0;
        while i < self.targets.len()
            invariant
                i <= self.targets.len(),
                forall|k: int| 0 <= k < i ==> is_final(#[trigger] self@.states[k]),
            decreases self.targets.len() - i,
        {
            let done = match &self.targets[i].1 {
                TargetLogoutState::Succeeded => true,
                TargetLogoutState::Failed { .. } => true,
                _ => false,
            };
            assert(self@.states[i as int] == state_view(self.targets@[i as int].1));
            if !done {
                return false;
            }
            i = i + 1;
        }
        true
    }

    /// Aggregate progress across all targets: how many there are, how many
    /// succeeded, and the entity IDs of those that failed, in order.
    pub fn progress(&self) -> (r: LogoutPropagationResult)
        ensures
            self@.states.len() == self@.targets.len(),
            r.total_participants == self@.targets.len(),
            r.successful_logouts == count_succeeded(self@.states, self@.states.len() as int),
            strings_view(r.failed_participants@) == failed_entities(
                self@.targets,
                self@.states,
                self@.states.len() as int,
            ),
    {
        let mut successful: usize = 0;
        let mut failed: Vec<String> = Vec::new();
        let mut i: usize = 0;
        while i < self.targets.len()
            invariant
                i <= self.targets.len(),
                self@.states.len() == self.targets.len(),
                successful == count_succeeded(self@.states, i as int),
                successful <= i,
                strings_view(failed@) == failed_entities(self@.targets, self@.states, i as int),
            decreases self.targets.len() - i,
        {
            assert(self@.states[i as int] == state_view(self.targets@[i as int].1));
            assert(self@.targets[i as int] == self.targets@[i as int].0);
            match &self.targets[i].1 {
                TargetLogoutState::Succeeded => {
                    successful = successful + 1;
                },
                TargetLogoutState::Failed { .. } => {
                    let ghost before = failed@;
                    failed.push(to_owned_string(self.targets[i].0.entity_id.as_str()));
                    assert(strings_view(failed@) =~= strings_view(before).push(self@.targets[i as int].entity_id@));
                },
                _ => {},
            }
            i = i + 1;
        }
        LogoutPropagationResult { total_participants: self.targets.len(), successful_logouts: successful, failed_participants: failed }
    }
}

/// The first pending target at or after `j` is pending and has no pending
/// target between `j` and it; there is none exactly when no target from `j`
/// on is pending.
pub proof fn lemma_first_pending(states: Seq<StateView>, j: int)
    requires
        0 <= j <= states.len(),
    ensures
        match first_pending(states, j) {
            Some(i) => j <= i < states.len() && states[i] is Pending && forall|k: int|
                j <= k < i ==> !(#[trigger] states[k] is Pending),
            None => forall|k: int| j <= k < states.len() ==> !(#[trigger] states[k] is Pending),
        },
    decreases states.len() - j,
{
    if j < states.len() && !(states[j] is Pending) {
        lemma_first_pending(states, j + 1);
    }
}

/// No target is pending exactly when the count of pending targets is zero.
pub proof fn lemma_count_pending_zero(states: Seq<StateView>, n: int)
    requires
        0 <= n <= states.len(),
    ensures
        (count_pending(states, n) == 0) == (forall|k: int| 0 <= k < n ==> !(#[trigger] states[k] is Pending)),
    decreases n,
{
    if n > 0 {
        lemma_count_pending_zero(states, n - 1);
    }
}

/// Moving a pending target to in-progress lowers the number of pending
/// targets by one: the drive loop of `next_request()` ends.
pub proof fn lemma_pending_decreases(states: Seq<StateView>, i: int, id: Seq<char>, n: int)
    requires
        0 <= i < n <= states.len(),
        states[i] is Pending,
    ensures
        count_pending(states.update(i, StateView::InProgress(id)), n) + 1 == count_pending(states, n),
    decreases n,
{
    let t = states.update(i, StateView::InProgress(id));
    if n - 1 > i {
        lemma_pending_decreases(states, i, id, n - 1);
    } else {
        lemma_count_pending_same(states, t, n - 1);
    }
}

/// Counts over a prefix depend only on that prefix.
proof fn lemma_count_pending_same(a: Seq<StateView>, b: Seq<StateView>, n: int)
    requires
        0 <= n <= a.len(),
        n <= b.len(),
        forall|k: int| 0 <= k < n ==> a[k] == b[k],
    ensures
        count_pending(a, n) == count_pending(b, n),
    decreases n,
{
    if n > 0 {
        lemma_count_pending_same(a, b, n - 1);
    }
}

/// A recorded response always leaves its target in a final state.
pub proof fn lemma_outcome_is_final(status: Status)
    ensures
        is_final(outcome_state(status)),
{
}

/// Once every target is final, each is counted exactly once in the progress:
/// the successes plus the failed entities make up all targets.
pub proof fn lemma_progress_accounts(targets: Seq<LogoutTarget>, states: Seq<StateView>, n: int)
    requires
        0 <= n <= states.len(),
        forall|k: int| 0 <= k < n ==> is_final(#[trigger] states[k]),
    ensures
        count_succeeded(states, n) + failed_entities(targets, states, n).len() == n,
    decreases n,
{
    if n > 0 {
        lemma_progress_accounts(targets, states, n - 1);
    }
}

/// Every orchestrator keeps one state per target.
pub proof fn lemma_states_match_targets(o: SpLogoutOrchestrator)
    ensures
        o@.states.len() == o@.targets.len(),
{
}

/// Once the orchestrator is complete, its progress accounts for every
/// target: the successful logouts plus the failed entities are all targets.
pub proof fn lemma_complete_progress_accounts(o: SpLogoutOrchestrator)
    requires
        forall|i: int| 0 <= i < o@.states.len() ==> is_final(#[trigger] o@.states[i]),
    ensures
        count_succeeded(o@.states, o@.states.len() as int) + failed_entities(
            o@.targets,
            o@.states,
            o@.states.len() as int,
        ).len() == o@.targets.len(),
{
    lemma_progress_accounts(o@.targets, o@.states, o@.states.len() as int);
}

/// The progress reports every target logged out exactly when each one
/// succeeded.
pub proof fn lemma_all_succeeded(states: Seq<StateView>, n: int)
    requires
        0 <= n <= states.len(),
    ensures
        (count_succeeded(states, n) == n) == (forall|k: int| 0 <= k < n ==> #[trigger] states[k] is Succeeded),
    decreases n,
{
    if n > 0 {
        lemma_all_succeeded(states, n - 1);
        lemma_count_succeeded_bound(states, n - 1);
    }
}

/// At most `n` of the first `n` targets succeeded.
proof fn lemma_count_succeeded_bound(states: Seq<StateView>, n: int)
    requires
        0 <= n <= states.len(),
    ensures
        count_succeeded(states, n) <= n,
    decreases n,
{
    if n > 0 {
        lemma_count_succeeded_bound(states, n - 1);
    }
}

/// Find the SLO endpoint of a descriptor for the given binding, falling back
/// to the first SLO endpoint.
pub fn find_slo_endpoint<'a>(sso_base: &'a SsoDescriptorBase, preferred_binding: &str) -> (r: Option<&'a Endpoint>)
    ensures
        match first_with_binding(sso_base.single_logout_services@, preferred_binding@, 0) {
            Some(k) => r matches Some(e) && 0 <= k < sso_base.single_logout_services.len() && *e
                == sso_base.single_logout_services@[k],
            None => if sso_base.single_logout_services.len() == 0 {
                r is None
            } else {
                r matches Some(e) && *e == sso_base.single_logout_services@[0]
            },
        },
{
    match find_endpoint_by_binding(&sso_base.single_logout_services, preferred_binding) {
        Some(e) => Some(e),
        None => {
            if sso_base.single_logout_services.len() == 0 {
                None
            } else {
                Some(&sso_base.single_logout_services[0])
            }
        },
    }
}

/// A cleartext name identifier with an empty value.
pub open spec fn has_empty_name_id(request: LogoutRequest) -> bool {
    request.name_id matches NameIdOrEncryptedId::NameId(n) && n.value@.len() == 0
}

/// The request's validity ended at or before `now`, allowing `skew` seconds
/// of clock difference.
pub open spec fn is_expired(request: LogoutRequest, now: i128, skew: u64) -> bool {
    request.not_on_or_after matches Some(t) && now - seconds_span(skew as int) >= t
}

/// The message of a LogoutRequest whose validity ended at `t`, checked at
/// `now`.
pub open spec fn expired_request_text(t: i128, now: i128) -> Seq<char> {
    "LogoutRequest expired: NotOnOrAfter="@ + instant_display(t) + ", now="@ + instant_display(now)
}

/// Validate an incoming LogoutRequest (at SP or IdP): a cleartext NameID
/// must not be empty (an encrypted one cannot be checked here), and the
/// request must not have expired.
pub fn validate_logout_request(request: &LogoutRequest, now: i128, clock_skew_seconds: u64) -> (r: Result<
    (),
    ProfileError,
>)
    ensures
        has_empty_name_id(*request) ==> (r matches Err(e) && e == ProfileError::MissingNameId),
        !has_empty_name_id(*request) && is_expired(*request, now, clock_skew_seconds) ==> (r matches Err(
            ProfileError::Other(m),
        ) && m@ == expired_request_text(request.not_on_or_after->0, now)),
        !has_empty_name_id(*request) && !is_expired(*request, now, clock_skew_seconds) ==> r is Ok,
{
    match &request.name_id {
        NameIdOrEncryptedId::NameId(n) => {
            if n.value.as_str().unicode_len() == 0 {
                return Err(ProfileError::MissingNameId);
            }
        },
        NameIdOrEncryptedId::EncryptedId(_) => {},
    }
    if let Some(t) = request.not_on_or_after {
        let expired = match now.checked_sub(unsigned_seconds_to_nanos(clock_skew_seconds)) {
            Some(earliest) => earliest >= t,
            None => false,
        };
        if expired {
            let ts = instant_string(t);
            let ns = instant_string(now);
            let mut m = to_owned_string("LogoutRequest expired: NotOnOrAfter=");
            push_str(&mut m, ts.as_str());
            push_str(&mut m, ", now=");
            push_str(&mut m, ns.as_str());
            proof {
                reveal_strlit("LogoutRequest expired: NotOnOrAfter=");
                reveal_strlit(", now=");
            }
            assert(m@ =~= expired_request_text(t, now));
            return Err(ProfileError::Other(m));
        }
    }
    Ok(())
}

/// A LogoutRequest made by `create_sp_logout_request` with the default
/// validity and a non-empty name identifier passes `validate_logout_request`
/// from its issue instant until the validity runs out, whatever the clock
/// skew allowed.
pub proof fn lemma_fresh_request_is_valid(
    r: LogoutRequest,
    issuer: Seq<char>,
    destination: Option<Seq<char>>,
    reason: Option<Seq<char>>,
    name_id: NameIdView,
    session_indexes: Seq<Seq<char>>,
    now: i128,
    skew: u64,
)
    requires
        is_logout_request_for(r, issuer, destination, None, reason, name_id, session_indexes),
        name_id.0.len() > 0,
        r.issue_instant + seconds_span(LOGOUT_REQUEST_VALIDITY_SECONDS as int) <= i128::MAX,
        now < r.issue_instant + seconds_span(LOGOUT_REQUEST_VALIDITY_SECONDS as int),
    ensures
        !has_empty_name_id(r),
        !is_expired(r, now, skew),
{
}

} // verus!
