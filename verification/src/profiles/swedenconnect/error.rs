//! Errors specific to the Deployment Profile for the Swedish eID Framework,
//! and the SAML status an Identity Provider answers each with (section 6.4).

use vstd::prelude::*;
use crate::profiles::error::{profile_error_text, ProfileError};
use crate::protocol::{status_is, Status, STATUS_REQUESTER, STATUS_RESPONDER};
use crate::text::opt_string_view;
use crate::text::{
    debug_list, debug_list_text, debug_quoted, debug_text, decimal_string_u64, decimal_string, decimal_text, push_str,
    strings_view, to_owned_string,
};
use super::constants;

verus! {

/// Errors raised by Sweden Connect profile processing.
#[derive(Debug)]
pub enum SwedenConnectError {
    /// The profile requires at least one requested Level of Assurance, but none
    /// were configured (section 5.3.1).
    NoRequestedLoa,

    /// The `<saml2p:Response>` was not signed (section 6.1 — responses MUST be
    /// signed).
    ResponseNotSigned,

    /// The Identity Provider did not return an `<saml2:EncryptedAssertion>`
    /// (section 6.1 — assertions MUST be encrypted).
    AssertionNotEncrypted,

    /// The response carried a cleartext `<saml2:Assertion>`; section 6.1 requires
    /// the entire assertion to be encrypted, so cleartext assertions are rejected.
    CleartextAssertion,

    /// The response did not contain exactly one assertion (section 6.2).
    AssertionCount(usize),

    /// The `<saml2p:Response>` signature failed cryptographic verification
    /// (section 6.3.1).
    InvalidResponseSignature(String),

    /// The `<saml2p:Response>` carried no `<saml2:Issuer>` (section 6.1 — the
    /// response MUST contain an Issuer).
    MissingResponseIssuer,

    /// The response-level `<saml2:Issuer>` did not identify the expected Identity
    /// Provider (section 6.1 / 6.3.1).
    ResponseIssuerMismatch {
        /// The Issuer value carried in the response.
        received: String,
        /// The IdP entityID expected from metadata.
        expected: String,
    },

    /// The response is not the answer to a tracked `AuthnRequest` (no expected
    /// request ID), yet it carries an `InResponseTo` — a stale, replayed, or
    /// misdirected message (section 6.1, 6.3.3).
    UnexpectedInResponseTo(String),

    /// An unsolicited response was received but the deployment does not accept
    /// them (section 6.1).
    UnsolicitedNotAllowed,

    /// A successful response did not contain exactly one `<saml2:AuthnStatement>`
    /// (section 6.2).
    AuthnStatementCount(usize),

    /// A successful response did not contain exactly one
    /// `<saml2:AttributeStatement>` (section 6.2).
    AttributeStatementCount(usize),

    /// The assertion carried no authentication context class reference
    /// (section 6.3.4).
    MissingAuthnContextClassRef,

    /// The delivered Level of Assurance did not match any requested one
    /// (section 6.3.4).
    LevelOfAssuranceMismatch {
        /// The authn context class ref returned by the IdP.
        received: String,
        /// The set of authn context class refs requested by the SP.
        requested: Vec<String>,
    },

    /// The subject confirmation method was neither bearer nor holder-of-key
    /// (section 6.2).
    UnexpectedConfirmationMethod(String),

    /// The clock skew configured exceeds the profile maximum of 1 minute
    /// (section 6.3.5).
    ClockSkewTooLarge(u64),

    /// The response used a cryptographic algorithm outside the profile's
    /// allowed set for the given purpose (section 8).
    DisallowedAlgorithm {
        /// The algorithm usage being checked.
        kind: &'static str,
        /// The disallowed algorithm URI.
        uri: String,
    },

    /// An error from the underlying Web Browser SSO profile processing.
    Profile(ProfileError),

    /// A cryptographic error (decryption, signature verification), by its message.
    Crypto(String),

    /// An XML parsing/serialization error, by its message.
    Xml(String),

    /// Any other profile violation.
    Other(String),
}

/// The message describing a Sweden Connect error.
pub open spec fn sc_error_text(e: SwedenConnectError) -> Seq<char> {
    match e {
        SwedenConnectError::NoRequestedLoa => "no requested Level of Assurance configured"@,
        SwedenConnectError::ResponseNotSigned => "Response message was not signed"@,
        SwedenConnectError::AssertionNotEncrypted => "assertion was not encrypted (EncryptedAssertion required)"@,
        SwedenConnectError::CleartextAssertion => "response contains a cleartext Assertion; the entire assertion MUST be encrypted (section 6.1)"@,
        SwedenConnectError::AssertionCount(n) => "expected exactly one assertion, found "@ + decimal_text(n as nat),
        SwedenConnectError::InvalidResponseSignature(a) => "Response signature verification failed: "@ + a@,
        SwedenConnectError::MissingResponseIssuer => "Response message is missing an Issuer (section 6.1)"@,
        SwedenConnectError::ResponseIssuerMismatch { received, expected } => "Response Issuer "@ + debug_text(received@) + " does not match the expected IdP "@ + debug_text(expected@),
        SwedenConnectError::UnexpectedInResponseTo(a) => "Response carries InResponseTo "@ + debug_text(a@) + " but no matching request was expected"@,
        SwedenConnectError::UnsolicitedNotAllowed => "unsolicited Response messages are not accepted"@,
        SwedenConnectError::AuthnStatementCount(n) => "expected exactly one AuthnStatement, found "@ + decimal_text(n as nat),
        SwedenConnectError::AttributeStatementCount(n) => "expected exactly one AttributeStatement, found "@ + decimal_text(n as nat),
        SwedenConnectError::MissingAuthnContextClassRef => "assertion is missing an AuthnContextClassRef"@,
        SwedenConnectError::LevelOfAssuranceMismatch { received, requested } => "delivered LoA "@ + debug_text(received@) + " does not match any requested LoA "@ + debug_list_text(strings_view(requested@)),
        SwedenConnectError::UnexpectedConfirmationMethod(a) => "unexpected SubjectConfirmation method: "@ + a@,
        SwedenConnectError::ClockSkewTooLarge(s) => "clock skew "@ + decimal_text(s as nat) + "s exceeds the profile maximum of 60s"@,
        SwedenConnectError::DisallowedAlgorithm { kind, uri } => "response uses disallowed "@ + kind@ + " algorithm "@ + debug_text(uri@),
        SwedenConnectError::Profile(e) => "profile error: "@ + profile_error_text(e),
        SwedenConnectError::Crypto(a) => "crypto error: "@ + a@,
        SwedenConnectError::Xml(a) => "XML error: "@ + a@,
        SwedenConnectError::Other(a) => a@,
    }
}

/// The top-level status code for an error: requester faults are those of
/// the Service Provider's request or configuration.
pub open spec fn status_code_for(e: SwedenConnectError) -> Seq<char> {
    match e {
        SwedenConnectError::NoRequestedLoa
        | SwedenConnectError::UnsolicitedNotAllowed
        | SwedenConnectError::UnexpectedConfirmationMethod(_)
        | SwedenConnectError::LevelOfAssuranceMismatch { .. }
        | SwedenConnectError::MissingAuthnContextClassRef => STATUS_REQUESTER@,
        _ => STATUS_RESPONDER@,
    }
}

/// The second-level status code for an error: `NoAuthnContext` for Level of
/// Assurance faults, none otherwise.
pub open spec fn status_sub_code_for(e: SwedenConnectError) -> Option<Seq<char>> {
    match e {
        SwedenConnectError::LevelOfAssuranceMismatch { .. }
        | SwedenConnectError::MissingAuthnContextClassRef => Some(constants::STATUS_NO_AUTHN_CONTEXT@),
        _ => None,
    }
}

impl SwedenConnectError {
    /// The human-readable message for this error.
    pub fn message(&self) -> (r: String)
        ensures
            r@ == sc_error_text(*self),
    {
        match self {
            SwedenConnectError::NoRequestedLoa => to_owned_string("no requested Level of Assurance configured"),
            SwedenConnectError::ResponseNotSigned => to_owned_string("Response message was not signed"),
            SwedenConnectError::AssertionNotEncrypted => to_owned_string("assertion was not encrypted (EncryptedAssertion required)"),
            SwedenConnectError::CleartextAssertion => to_owned_string("response contains a cleartext Assertion; the entire assertion MUST be encrypted (section 6.1)"),
            SwedenConnectError::AssertionCount(n) => {
                let mut m = to_owned_string("expected exactly one assertion, found ");
                let t1 = decimal_string(*n);
                push_str(&mut m, t1.as_str());
                m
            },
            SwedenConnectError::InvalidResponseSignature(a) => {
                let mut m = to_owned_string("Response signature verification failed: ");
                push_str(&mut m, a.as_str());
                m
            },
            SwedenConnectError::MissingResponseIssuer => to_owned_string("Response message is missing an Issuer (section 6.1)"),
            SwedenConnectError::ResponseIssuerMismatch { received, expected } => {
                let mut m = to_owned_string("Response Issuer ");
                let t1 = debug_quoted(received.as_str());
                push_str(&mut m, t1.as_str());
                push_str(&mut m, " does not match the expected IdP ");
                let t3 = debug_quoted(expected.as_str());
                push_str(&mut m, t3.as_str());
                m
            },
            SwedenConnectError::UnexpectedInResponseTo(a) => {
                let mut m = to_owned_string("Response carries InResponseTo ");
                let t1 = debug_quoted(a.as_str());
                push_str(&mut m, t1.as_str());
                push_str(&mut m, " but no matching request was expected");
                m
            },
            SwedenConnectError::UnsolicitedNotAllowed => to_owned_string("unsolicited Response messages are not accepted"),
            SwedenConnectError::AuthnStatementCount(n) => {
                let mut m = to_owned_string("expected exactly one AuthnStatement, found ");
                let t1 = decimal_string(*n);
                push_str(&mut m, t1.as_str());
                m
            },
            SwedenConnectError::AttributeStatementCount(n) => {
                let mut m = to_owned_string("expected exactly one AttributeStatement, found ");
                let t1 = decimal_string(*n);
                push_str(&mut m, t1.as_str());
                m
            },
            SwedenConnectError::MissingAuthnContextClassRef => to_owned_string("assertion is missing an AuthnContextClassRef"),
            SwedenConnectError::LevelOfAssuranceMismatch { received, requested } => {
                let mut m = to_owned_string("delivered LoA ");
                let t1 = debug_quoted(received.as_str());
                push_str(&mut m, t1.as_str());
                push_str(&mut m, " does not match any requested LoA ");
                let t3 = debug_list(requested);
                push_str(&mut m, t3.as_str());
                m
            },
            SwedenConnectError::UnexpectedConfirmationMethod(a) => {
                let mut m = to_owned_string("unexpected SubjectConfirmation method: ");
                push_str(&mut m, a.as_str());
                m
            },
            SwedenConnectError::ClockSkewTooLarge(s) => {
                let mut m = to_owned_string("clock skew ");
                let t1 = decimal_string_u64(*s);
                push_str(&mut m, t1.as_str());
                push_str(&mut m, "s exceeds the profile maximum of 60s");
                m
            },
            SwedenConnectError::DisallowedAlgorithm { kind, uri } => {
                let mut m = to_owned_string("response uses disallowed ");
                push_str(&mut m, *kind);
                push_str(&mut m, " algorithm ");
                let t3 = debug_quoted(uri.as_str());
                push_str(&mut m, t3.as_str());
                m
            },
            SwedenConnectError::Profile(e) => {
                let mut m = to_owned_string("profile error: ");
                let t1 = e.message();
                push_str(&mut m, t1.as_str());
                m
            },
            SwedenConnectError::Crypto(a) => {
                let mut m = to_owned_string("crypto error: ");
                push_str(&mut m, a.as_str());
                m
            },
            SwedenConnectError::Xml(a) => {
                let mut m = to_owned_string("XML error: ");
                push_str(&mut m, a.as_str());
                m
            },
            SwedenConnectError::Other(a) => to_owned_string(a.as_str()),
        }
    }
    /// Map this error to the SAML `<saml2p:Status>` an Identity Provider should
    /// return, per section 6.4. Service-Provider-side faults map to
    /// `Requester` (with `NoAuthnContext` for Level of Assurance faults),
    /// everything else to `Responder`; the message is the error's text.
    pub fn to_status(&self) -> (r: Status)
        ensures
            status_is(r, status_code_for(*self), status_sub_code_for(*self), Some(sc_error_text(*self))),
    {
        let message = self.message();
        match self {
            SwedenConnectError::NoRequestedLoa
            | SwedenConnectError::UnsolicitedNotAllowed
            | SwedenConnectError::UnexpectedConfirmationMethod(_) => Status::requester(Some(message)),
            SwedenConnectError::LevelOfAssuranceMismatch { .. }
            | SwedenConnectError::MissingAuthnContextClassRef => Status::with_sub_status(
                constants::STATUS_REQUESTER,
                constants::STATUS_NO_AUTHN_CONTEXT,
                Some(message),
            ),
            _ => Status::responder(Some(message)),
        }
    }
}

/// The status an Identity Provider answers an error with blames the
/// Service Provider (`Requester`) exactly for the faults of its request or
/// configuration: no requested Level of Assurance, an unsolicited response
/// it does not accept, an unexpected confirmation method, and the Level of
/// Assurance faults, which alone carry `NoAuthnContext`; every other error is
/// the Identity Provider's (`Responder`) with no second-level code. `r` is
/// any status `to_status` may return for `e`.
pub proof fn lemma_status_blames_the_right_party(e: SwedenConnectError, r: Status)
    requires
        status_is(r, status_code_for(e), status_sub_code_for(e), Some(sc_error_text(e))),
    ensures
        (e is NoRequestedLoa || e is UnsolicitedNotAllowed || e is UnexpectedConfirmationMethod
            || e is LevelOfAssuranceMismatch || e is MissingAuthnContextClassRef) ==> r.status_code.value@
            == STATUS_REQUESTER@,
        !(e is NoRequestedLoa || e is UnsolicitedNotAllowed || e is UnexpectedConfirmationMethod
            || e is LevelOfAssuranceMismatch || e is MissingAuthnContextClassRef) ==> (r.status_code.value@
            == STATUS_RESPONDER@ && r.status_code.sub_status is None),
        (e is LevelOfAssuranceMismatch || e is MissingAuthnContextClassRef) ==> (r.status_code.sub_status matches Some(
            b,
        ) && b.value@ == constants::STATUS_NO_AUTHN_CONTEXT@),
        opt_string_view(r.status_message) == Some(sc_error_text(e)),
{
}

/// A profile error raised while processing under this deployment profile.
impl From<ProfileError> for SwedenConnectError {
    fn from(e: ProfileError) -> (r: Self) {
        SwedenConnectError::Profile(e)
    }
}

impl vstd::std_specs::convert::FromSpecImpl<ProfileError> for SwedenConnectError {
    open spec fn obeys_from_spec() -> bool {
        true
    }

    open spec fn from_spec(v: ProfileError) -> Self {
        SwedenConnectError::Profile(v)
    }
}

} // verus!
