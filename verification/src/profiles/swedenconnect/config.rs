//! Deployment configuration for the Swedish eID Framework profile.

use vstd::prelude::*;
use crate::security::SecurityConfig;
use crate::text::to_owned_string;
use super::constants;
use super::error::SwedenConnectError;

verus! {

/// The role an entity plays in the federation.
#[derive(Debug, Clone, Copy, PartialEq, Eq, Structural)]
pub enum SwedenConnectRole {
    /// An ordinary Service Provider.
    ServiceProvider,
    /// An Identity Provider.
    IdentityProvider,
    /// A Signature Service (a Service Provider with the `sigservice` service
    /// type entity category, section 2.1.4).
    SignatureService,
}

/// The maximum clock skew permitted by the profile, in seconds (section 6.3.5:
/// "SHOULD NOT exceed 1 minute in either direction").
pub const MAX_CLOCK_SKEW_SECONDS: u64 = 60;

/// The maximum assertion age the profile's security policy accepts, in
/// seconds (section 6.3.5).
pub const MAX_ASSERTION_AGE_SECONDS: u64 = 300;

/// Deployment configuration for an entity conformant to the
/// "Deployment Profile for the Swedish eID Framework".
#[derive(Debug, Clone)]
pub struct SwedenConnectConfig {
    /// This entity's `entityID`.
    pub entity_id: String,
    /// The role this entity plays.
    pub role: SwedenConnectRole,
    /// The Level of Assurance authentication context URIs this SP requests
    /// (section 5.3.1). For an IdP this is the set of LoAs it can issue.
    pub requested_loas: Vec<String>,
    /// Clock skew tolerance in seconds. Clamped to [`MAX_CLOCK_SKEW_SECONDS`].
    pub clock_skew_seconds: u64,
    /// Whether the deployment accepts unsolicited (IdP-initiated) responses.
    /// The profile says SPs SHOULD NOT accept these (section 6.1); default false.
    pub accept_unsolicited: bool,
    /// The NameID format to request. Defaults to `persistent` (section 3).
    pub name_id_format: String,
    /// Whether the SP wants the assertion (inside the EncryptedAssertion) to
    /// also carry its own signature (`WantAssertionsSigned`, section 2.1.2).
    pub want_assertions_signed: bool,
}

/// A configuration in the profile's defaults for `role`: maximal permitted
/// skew, no unsolicited responses, persistent name identifiers, no assertion
/// signatures required.
pub open spec fn is_default_config(
    c: SwedenConnectConfig,
    entity_id: Seq<char>,
    role: SwedenConnectRole,
    loas: Vec<String>,
) -> bool {
    &&& c.entity_id@ == entity_id
    &&& c.role == role
    &&& c.requested_loas == loas
    &&& c.clock_skew_seconds == MAX_CLOCK_SKEW_SECONDS
    &&& !c.accept_unsolicited
    &&& c.name_id_format@ == constants::NAMEID_PERSISTENT@
    &&& !c.want_assertions_signed
}

/// The clock skew clamped to the profile maximum.
pub open spec fn clamped_skew(skew: u64) -> u64 {
    if skew < MAX_CLOCK_SKEW_SECONDS {
        skew
    } else {
        MAX_CLOCK_SKEW_SECONDS
    }
}

impl SwedenConnectConfig {
    /// A configuration with the profile defaults for `role`.
    fn with_role(entity_id: &str, role: SwedenConnectRole, loas: Vec<String>) -> (r: Self)
        ensures
            is_default_config(r, entity_id@, role, loas),
    {
        SwedenConnectConfig {
            entity_id: to_owned_string(entity_id),
            role,
            requested_loas: loas,
            clock_skew_seconds: MAX_CLOCK_SKEW_SECONDS,
            accept_unsolicited: false,
            name_id_format: to_owned_string(constants::NAMEID_PERSISTENT),
            want_assertions_signed: false,
        }
    }

    /// Create a configuration for a Service Provider requesting the given LoAs.
    pub fn service_provider(entity_id: &str, requested_loas: Vec<String>) -> (r: Self)
        ensures
            is_default_config(r, entity_id@, SwedenConnectRole::ServiceProvider, requested_loas),
    {
        Self::with_role(entity_id, SwedenConnectRole::ServiceProvider, requested_loas)
    }

    /// Create a configuration for an Identity Provider that can issue the given
    /// LoAs.
    pub fn identity_provider(entity_id: &str, issuable_loas: Vec<String>) -> (r: Self)
        ensures
            is_default_config(r, entity_id@, SwedenConnectRole::IdentityProvider, issuable_loas),
    {
        Self::with_role(entity_id, SwedenConnectRole::IdentityProvider, issuable_loas)
    }

    /// Create a configuration for a Signature Service (section 2.1.4 / 7).
    pub fn signature_service(entity_id: &str, requested_loas: Vec<String>) -> (r: Self)
        ensures
            is_default_config(r, entity_id@, SwedenConnectRole::SignatureService, requested_loas),
    {
        Self::with_role(entity_id, SwedenConnectRole::SignatureService, requested_loas)
    }

    /// Whether this entity is a Signature Service.
    pub fn is_signature_service(&self) -> (r: bool)
        ensures
            r == (self.role == SwedenConnectRole::SignatureService),
    {
        self.role == SwedenConnectRole::SignatureService
    }

    /// Validate the configuration against the profile's hard requirements:
    /// the clock skew must not exceed one minute.
    pub fn validate(&self) -> (r: Result<(), SwedenConnectError>)
        ensures
            self.clock_skew_seconds <= MAX_CLOCK_SKEW_SECONDS <==> r is Ok,
            r matches Err(e) ==> e == SwedenConnectError::ClockSkewTooLarge(self.clock_skew_seconds),
    {
        if self.clock_skew_seconds > MAX_CLOCK_SKEW_SECONDS {
            return Err(SwedenConnectError::ClockSkewTooLarge(self.clock_skew_seconds));
        }
        Ok(())
    }

    /// The effective clock skew, clamped to the profile maximum.
    pub fn effective_clock_skew(&self) -> (r: u64)
        ensures
            r == clamped_skew(self.clock_skew_seconds),
    {
        if self.clock_skew_seconds < MAX_CLOCK_SKEW_SECONDS {
            self.clock_skew_seconds
        } else {
            MAX_CLOCK_SKEW_SECONDS
        }
    }

    /// Build a [`SecurityConfig`] that enforces this profile's hard
    /// requirements for response/assertion processing: clock skew clamped to
    /// at most one minute (6.3.5), signed responses and encrypted assertions
    /// (6.1), Destination and Recipient verified (5.4.1, 6.3.2), a five-minute
    /// assertion lifetime, and the errata defences on. Assertion signatures
    /// are required only when the SP asked for them; the optional client
    /// address check stays off.
    pub fn security_config(&self) -> (r: SecurityConfig)
        ensures
            r == (SecurityConfig {
                clock_skew_seconds: clamped_skew(self.clock_skew_seconds),
                require_signed_assertions: self.want_assertions_signed,
                require_signed_responses: true,
                require_encrypted_assertions: true,
                max_assertion_age_seconds: MAX_ASSERTION_AGE_SECONDS,
                reject_signatures_with_ds_object: true,
                enforce_persistent_id_uniqueness: true,
                sanitize_relay_state: true,
                require_integrity_with_cbc: true,
                verify_destination: true,
                verify_recipient: true,
                check_client_address: false,
            }),
    {
        SecurityConfig {
            clock_skew_seconds: self.effective_clock_skew(),
            require_signed_assertions: self.want_assertions_signed,
            require_signed_responses: true,
            require_encrypted_assertions: true,
            max_assertion_age_seconds: MAX_ASSERTION_AGE_SECONDS,
            reject_signatures_with_ds_object: true,
            enforce_persistent_id_uniqueness: true,
            sanitize_relay_state: true,
            require_integrity_with_cbc: true,
            verify_destination: true,
            verify_recipient: true,
            check_client_address: false,
        }
    }
}

/// A configuration the profile accepts never has its skew clamped, and the
/// security policy always stays within the profile maximum.
pub proof fn lemma_valid_config_skew(c: SwedenConnectConfig)
    ensures
        c.clock_skew_seconds <= MAX_CLOCK_SKEW_SECONDS ==> clamped_skew(c.clock_skew_seconds) == c.clock_skew_seconds,
        clamped_skew(c.clock_skew_seconds) <= MAX_CLOCK_SKEW_SECONDS,
{
}

} // verus!
