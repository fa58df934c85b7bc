//! SAML 2.0 profile errors.

use vstd::prelude::*;
use crate::text::{decimal_string, decimal_text, push_str, to_owned_string};

verus! {

/// Errors raised while running a SAML profile.
#[derive(Debug)]
pub enum ProfileError {
    /// Missing Issuer element in AuthnRequest.
    MissingIssuer,
    /// Issuer format must be entity or omitted.
    InvalidIssuerFormat(String),
    /// AuthnRequest Subject must not contain SubjectConfirmation.
    SubjectConfirmationInAuthnRequest,
    /// No SSO endpoint found for IdP with the binding.
    NoSsoEndpoint(String),
    /// No ACS endpoint found for SP with the binding.
    NoAcsEndpoint(String),
    /// ACS URL in AuthnRequest does not match any SP endpoint.
    AcsUrlMismatch,
    /// Response status indicates failure.
    ResponseFailure(String),
    /// No assertions found in response.
    NoAssertions,
    /// No AuthnStatement found in assertion.
    NoAuthnStatement,
    /// Assertion validation failed.
    AssertionValidation(String),
    /// Missing NameID in LogoutRequest.
    MissingNameId,
    /// Missing SessionIndex in LogoutRequest.
    MissingSessionIndex,
    /// Session not found for NameID.
    SessionNotFound,
    /// Partial logout: `success` of `total` participants logged out.
    PartialLogout {
        /// Participants logged out.
        success: usize,
        /// Participants in the session.
        total: usize,
    },
    /// Artifact resolution failed.
    ArtifactResolutionFailed(String),
    /// Artifact response status indicates failure.
    ArtifactResponseFailure(String),
    /// Name ID management failed.
    NameIdManagementFailed(String),
    /// Name ID mapping failed.
    NameIdMappingFailed(String),
    /// Name ID mapping response missing NameID.
    MappingResponseMissingNameId,
    /// AssertionConsumerServiceURL does not match PAOS responseConsumerURL.
    EcpAcsUrlMismatch,
    /// Missing PAOS header in ECP request.
    MissingPaosHeader,
    /// Missing ecp:Request header in the SP's PAOS envelope.
    EcpMissingRequestHeader,
    /// Missing ecp:Response header in the IdP's SOAP response.
    EcpMissingResponseHeader,
    /// Subject confirmation method not supported.
    UnsupportedConfirmationMethod(String),
    /// Bearer confirmation missing SubjectConfirmationData.
    BearerMissingConfirmationData,
    /// Bearer confirmation missing Recipient.
    BearerMissingRecipient,
    /// Bearer confirmation Recipient mismatch.
    BearerRecipientMismatch {
        /// The expected recipient.
        expected: String,
        /// The recipient carried by the confirmation.
        actual: String,
    },
    /// Bearer confirmation expired (NotOnOrAfter).
    BearerExpired,
    /// Bearer confirmation has InResponseTo mismatch.
    BearerInResponseToMismatch,
    /// Attribute missing required xsi:type for basic profile.
    BasicProfileMissingType,
    /// Invalid attribute name format.
    InvalidAttributeNameFormat {
        /// The expected name format.
        expected: String,
        /// The name format found.
        actual: String,
    },
    /// Invalid Common Domain Cookie value.
    InvalidCommonDomainCookie,
    /// Discovery request without the required `entityID` parameter.
    DiscoveryMissingEntityId,
    /// Discovery `return` URL does not match a registered endpoint.
    DiscoveryReturnUrlNotRegistered(String),
    /// Discovery request has no `return` URL and no default endpoint exists.
    DiscoveryNoReturnUrl,
    /// Metadata error.
    Metadata(String),
    /// Binding error (e.g. a malformed URL encoding).
    Binding(String),
    /// Core error.
    Core(String),
    /// Security error.
    Security(String),
    /// Unsolicited SSO response not allowed by configuration.
    UnsolicitedNotAllowed,
    /// Any other profile violation.
    Other(String),
}

/// The message describing a profile error.
pub open spec fn profile_error_text(e: ProfileError) -> Seq<char> {
    match e {
        ProfileError::MissingIssuer => "missing Issuer element in AuthnRequest"@,
        ProfileError::InvalidIssuerFormat(a) => "Issuer format must be entity or omitted, got: "@ + a@,
        ProfileError::SubjectConfirmationInAuthnRequest => "AuthnRequest Subject must not contain SubjectConfirmation"@,
        ProfileError::NoSsoEndpoint(a) => "no SSO endpoint found for IdP with binding: "@ + a@,
        ProfileError::NoAcsEndpoint(a) => "no ACS endpoint found for SP with binding: "@ + a@,
        ProfileError::AcsUrlMismatch => "ACS URL in AuthnRequest does not match any SP endpoint"@,
        ProfileError::ResponseFailure(a) => "response status indicates failure: "@ + a@,
        ProfileError::NoAssertions => "no assertions found in response"@,
        ProfileError::NoAuthnStatement => "no AuthnStatement found in assertion"@,
        ProfileError::AssertionValidation(a) => "assertion validation failed: "@ + a@,
        ProfileError::MissingNameId => "missing NameID in LogoutRequest"@,
        ProfileError::MissingSessionIndex => "missing SessionIndex in LogoutRequest"@,
        ProfileError::SessionNotFound => "session not found for NameID"@,
        ProfileError::PartialLogout { success, total } => "partial logout: "@ + decimal_text(success as nat) + " of "@ + decimal_text(total as nat) + " participants logged out"@,
        ProfileError::ArtifactResolutionFailed(a) => "artifact resolution failed: "@ + a@,
        ProfileError::ArtifactResponseFailure(a) => "artifact response status indicates failure: "@ + a@,
        ProfileError::NameIdManagementFailed(a) => "name ID management failed: "@ + a@,
        ProfileError::NameIdMappingFailed(a) => "name ID mapping failed: "@ + a@,
        ProfileError::MappingResponseMissingNameId => "name ID mapping response missing NameID"@,
        ProfileError::EcpAcsUrlMismatch => "AssertionConsumerServiceURL does not match PAOS responseConsumerURL"@,
        ProfileError::MissingPaosHeader => "missing PAOS header in ECP request"@,
        ProfileError::EcpMissingRequestHeader => "missing ecp:Request header in PAOS envelope"@,
        ProfileError::EcpMissingResponseHeader => "missing ecp:Response header in SOAP response"@,
        ProfileError::UnsupportedConfirmationMethod(a) => "subject confirmation method not supported: "@ + a@,
        ProfileError::BearerMissingConfirmationData => "bearer confirmation missing SubjectConfirmationData"@,
        ProfileError::BearerMissingRecipient => "bearer confirmation missing Recipient"@,
        ProfileError::BearerRecipientMismatch { expected, actual } => "bearer confirmation Recipient mismatch: expected "@ + expected@ + ", got "@ + actual@,
        ProfileError::BearerExpired => "bearer confirmation expired (NotOnOrAfter)"@,
        ProfileError::BearerInResponseToMismatch => "bearer confirmation has InResponseTo mismatch"@,
        ProfileError::BasicProfileMissingType => "attribute missing required xsi:type for basic profile"@,
        ProfileError::InvalidAttributeNameFormat { expected, actual } => "invalid attribute name format: expected "@ + expected@ + ", got "@ + actual@,
        ProfileError::InvalidCommonDomainCookie => "invalid Common Domain Cookie value"@,
        ProfileError::DiscoveryMissingEntityId => "discovery request is missing the entityID parameter"@,
        ProfileError::DiscoveryReturnUrlNotRegistered(a) => "discovery return URL is not a registered DiscoveryResponse endpoint: "@ + a@,
        ProfileError::DiscoveryNoReturnUrl => "discovery request has no return URL and the SP has no DiscoveryResponse endpoint"@,
        ProfileError::Metadata(a) => "metadata error: "@ + a@,
        ProfileError::Binding(a) => "binding error: "@ + a@,
        ProfileError::Core(a) => "core error: "@ + a@,
        ProfileError::Security(a) => "security error: "@ + a@,
        ProfileError::UnsolicitedNotAllowed => "unsolicited SSO response not allowed by configuration"@,
        ProfileError::Other(a) => a@,
    }
}

impl ProfileError {
    /// The human-readable message for this error.
    pub fn message(&self) -> (r: String)
        ensures
            r@ == profile_error_text(*self),
    {
        match self {
            ProfileError::MissingIssuer => to_owned_string("missing Issuer element in AuthnRequest"),
            ProfileError::InvalidIssuerFormat(a) => {
                let mut m = to_owned_string("Issuer format must be entity or omitted, got: ");
                push_str(&mut m, a.as_str());
                m
            },
            ProfileError::SubjectConfirmationInAuthnRequest => to_owned_string("AuthnRequest Subject must not contain SubjectConfirmation"),
            ProfileError::NoSsoEndpoint(a) => {
                let mut m = to_owned_string("no SSO endpoint found for IdP with binding: ");
                push_str(&mut m, a.as_str());
                m
            },
            ProfileError::NoAcsEndpoint(a) => {
                let mut m = to_owned_string("no ACS endpoint found for SP with binding: ");
                push_str(&mut m, a.as_str());
                m
            },
            ProfileError::AcsUrlMismatch => to_owned_string("ACS URL in AuthnRequest does not match any SP endpoint"),
            ProfileError::ResponseFailure(a) => {
                let mut m = to_owned_string("response status indicates failure: ");
                push_str(&mut m, a.as_str());
                m
            },
            ProfileError::NoAssertions => to_owned_string("no assertions found in response"),
            ProfileError::NoAuthnStatement => to_owned_string("no AuthnStatement found in assertion"),
            ProfileError::AssertionValidation(a) => {
                let mut m = to_owned_string("assertion validation failed: ");
                push_str(&mut m, a.as_str());
                m
            },
            ProfileError::MissingNameId => to_owned_string("missing NameID in LogoutRequest"),
            ProfileError::MissingSessionIndex => to_owned_string("missing SessionIndex in LogoutRequest"),
            ProfileError::SessionNotFound => to_owned_string("session not found for NameID"),
            ProfileError::PartialLogout { success, total } => {
                let mut m = to_owned_string("partial logout: ");
                let d = decimal_string(*success);
                push_str(&mut m, d.as_str());
                push_str(&mut m, " of ");
                let d = decimal_string(*total);
                push_str(&mut m, d.as_str());
                push_str(&mut m, " participants logged out");
                m
            },
            ProfileError::ArtifactResolutionFailed(a) => {
                let mut m = to_owned_string("artifact resolution failed: ");
                push_str(&mut m, a.as_str());
                m
            },
            ProfileError::ArtifactResponseFailure(a) => {
                let mut m = to_owned_string("artifact response status indicates failure: ");
                push_str(&mut m, a.as_str());
                m
            },
            ProfileError::NameIdManagementFailed(a) => {
                let mut m = to_owned_string("name ID management failed: ");
                push_str(&mut m, a.as_str());
                m
            },
            ProfileError::NameIdMappingFailed(a) => {
                let mut m = to_owned_string("name ID mapping failed: ");
                push_str(&mut m, a.as_str());
                m
            },
            ProfileError::MappingResponseMissingNameId => to_owned_string("name ID mapping response missing NameID"),
            ProfileError::EcpAcsUrlMismatch => to_owned_string("AssertionConsumerServiceURL does not match PAOS responseConsumerURL"),
            ProfileError::MissingPaosHeader => to_owned_string("missing PAOS header in ECP request"),
            ProfileError::EcpMissingRequestHeader => to_owned_string("missing ecp:Request header in PAOS envelope"),
            ProfileError::EcpMissingResponseHeader => to_owned_string("missing ecp:Response header in SOAP response"),
            ProfileError::UnsupportedConfirmationMethod(a) => {
                let mut m = to_owned_string("subject confirmation method not supported: ");
                push_str(&mut m, a.as_str());
                m
            },
            ProfileError::BearerMissingConfirmationData => to_owned_string("bearer confirmation missing SubjectConfirmationData"),
            ProfileError::BearerMissingRecipient => to_owned_string("bearer confirmation missing Recipient"),
            ProfileError::BearerRecipientMismatch { expected, actual } => {
                let mut m = to_owned_string("bearer confirmation Recipient mismatch: expected ");
                push_str(&mut m, expected.as_str());
                push_str(&mut m, ", got ");
                push_str(&mut m, actual.as_str());
                m
            },
            ProfileError::BearerExpired => to_owned_string("bearer confirmation expired (NotOnOrAfter)"),
            ProfileError::BearerInResponseToMismatch => to_owned_string("bearer confirmation has InResponseTo mismatch"),
            ProfileError::BasicProfileMissingType => to_owned_string("attribute missing required xsi:type for basic profile"),
            ProfileError::InvalidAttributeNameFormat { expected, actual } => {
                let mut m = to_owned_string("invalid attribute name format: expected ");
                push_str(&mut m, expected.as_str());
                push_str(&mut m, ", got ");
                push_str(&mut m, actual.as_str());
                m
            },
            ProfileError::InvalidCommonDomainCookie => to_owned_string("invalid Common Domain Cookie value"),
            ProfileError::DiscoveryMissingEntityId => to_owned_string("discovery request is missing the entityID parameter"),
            ProfileError::DiscoveryReturnUrlNotRegistered(a) => {
                let mut m = to_owned_string("discovery return URL is not a registered DiscoveryResponse endpoint: ");
                push_str(&mut m, a.as_str());
                m
            },
            ProfileError::DiscoveryNoReturnUrl => to_owned_string("discovery request has no return URL and the SP has no DiscoveryResponse endpoint"),
            ProfileError::Metadata(a) => {
                let mut m = to_owned_string("metadata error: ");
                push_str(&mut m, a.as_str());
                m
            },
            ProfileError::Binding(a) => {
                let mut m = to_owned_string("binding error: ");
                push_str(&mut m, a.as_str());
                m
            },
            ProfileError::Core(a) => {
                let mut m = to_owned_string("core error: ");
                push_str(&mut m, a.as_str());
                m
            },
            ProfileError::Security(a) => {
                let mut m = to_owned_string("security error: ");
                push_str(&mut m, a.as_str());
                m
            },
            ProfileError::UnsolicitedNotAllowed => to_owned_string("unsolicited SSO response not allowed by configuration"),
            ProfileError::Other(a) => to_owned_string(a.as_str()),
        }
    }
}

} // verus!
