//! Subject confirmation methods (SAML Core 3.2, SAML Profiles 3.1): bearer,
//! holder-of-key and sender-vouches.
//!
//! Instants are nanoseconds since the Unix epoch; reasons show them as chrono
//! displays them in UTC.

use vstd::prelude::*;
use crate::assertion::{
    SubjectConfirmation, SubjectConfirmationData, CM_BEARER, CM_HOLDER_OF_KEY, CM_SENDER_VOUCHES,
};
use crate::encoding::{base64_encoding, base64_standard_decode, base64_standard_decoding, base64_standard_encode};
use crate::profiles::error::ProfileError;
use crate::protocol::{instant_display, instant_string, seconds_span, unsigned_seconds_to_nanos};
use crate::text::{opt_str_to_owned, opt_str_view, opt_string_view, push_str, str_eq, strings_view, to_owned_string};

verus! {

/// Result of validating a subject confirmation.
#[derive(Debug, Clone)]
pub struct ConfirmationResult {
    /// The confirmation method that was validated.
    pub method: String,
    /// Whether the confirmation was successful.
    pub valid: bool,
    /// If invalid, the reason.
    pub reason: Option<String>,
}

/// The outcome of a confirmation check: the method, whether it holds, and
/// the reason when it does not.
pub struct ConfirmationView {
    /// The method reported.
    pub method: Seq<char>,
    /// Whether the confirmation holds.
    pub valid: bool,
    /// Why it does not.
    pub reason: Option<Seq<char>>,
}

/// The view of a confirmation result.
pub open spec fn confirmation_view(r: ConfirmationResult) -> ConfirmationView {
    ConfirmationView { method: r.method@, valid: r.valid, reason: opt_string_view(r.reason) }
}

/// A failed check of `method` for `reason`.
pub open spec fn rejected(method: Seq<char>, reason: Seq<char>) -> ConfirmationView {
    ConfirmationView { method, valid: false, reason: Some(reason) }
}

/// A successful check of `method`.
pub open spec fn accepted(method: Seq<char>) -> ConfirmationView {
    ConfirmationView { method, valid: true, reason: None }
}

/// A failed result for `method` with `reason`.
fn reject(method: &str, reason: String) -> (r: ConfirmationResult)
    ensures
        confirmation_view(r) == rejected(method@, reason@),
{
    ConfirmationResult { method: to_owned_string(method), valid: false, reason: Some(reason) }
}

/// The text `a + b + c + d`.
fn concat4(a: &str, b: &str, c: &str, d: &str) -> (r: String)
    ensures
        r@ == a@ + b@ + c@ + d@,
{
    let mut s = to_owned_string(a);
    push_str(&mut s, b);
    push_str(&mut s, c);
    push_str(&mut s, d);
    s
}

/// Parameters for validating a bearer subject confirmation.
#[derive(Debug)]
pub struct BearerValidationParams<'a> {
    /// The expected recipient URL (ACS URL).
    pub recipient: &'a str,
    /// The InResponseTo value from the request (None for unsolicited).
    pub in_response_to: Option<&'a str>,
    /// The current time, in nanoseconds since the epoch.
    pub now: i128,
    /// Clock skew tolerance in seconds (E92).
    pub clock_skew_seconds: u64,
    /// Whether to verify the Address attribute against the client IP.
    pub check_address: bool,
    /// The client's IP address (if checking).
    pub client_address: Option<&'a str>,
}

/// The outcome of the bearer checks on confirmation data `d`, in order:
/// recipient, expiry, start, request correlation, address.
pub open spec fn bearer_data_result(d: SubjectConfirmationData, p: BearerValidationParams) -> ConfirmationView {
    let m = CM_BEARER@;
    match d.recipient {
        None => rejected(m, "missing Recipient in SubjectConfirmationData"@),
        Some(rc) => if rc@ != p.recipient@ {
            rejected(m, "Recipient mismatch: expected "@ + p.recipient@ + ", got "@ + rc@)
        } else {
            match d.not_on_or_after {
                None => rejected(m, "missing NotOnOrAfter in SubjectConfirmationData"@),
                Some(noa) => if p.now - seconds_span(p.clock_skew_seconds as int) >= noa {
                    rejected(
                        m,
                        "SubjectConfirmationData expired: NotOnOrAfter="@ + instant_display(noa) + ", now="@
                            + instant_display(p.now),
                    )
                } else if d.not_before matches Some(nb) && p.now + seconds_span(p.clock_skew_seconds as int) < nb {
                    rejected(
                        m,
                        "SubjectConfirmationData not yet valid: NotBefore="@ + instant_display(d.not_before->0) + ", now="@ + instant_display(p.now),
                    )
                } else {
                    bearer_correlation_result(d, p)
                }
            }
        },
    }
}

/// The request-correlation and address checks of a bearer confirmation.
pub open spec fn bearer_correlation_result(d: SubjectConfirmationData, p: BearerValidationParams) -> ConfirmationView {
    let m = CM_BEARER@;
    match p.in_response_to {
        Some(expected) => match d.in_response_to {
            None => rejected(m, "missing InResponseTo in SubjectConfirmationData for SP-initiated flow"@),
            Some(irt) => if irt@ != expected@ {
                rejected(m, "InResponseTo mismatch: expected "@ + expected@ + ", got "@ + irt@)
            } else {
                bearer_address_result(d, p)
            },
        },
        None => bearer_address_result(d, p),
    }
}

/// The optional address check of a bearer confirmation.
pub open spec fn bearer_address_result(d: SubjectConfirmationData, p: BearerValidationParams) -> ConfirmationView {
    let m = CM_BEARER@;
    if p.check_address && p.client_address is Some && d.address is Some && d.address->0@ != p.client_address->0@ {
        rejected(m, "Address mismatch: expected "@ + p.client_address->0@ + ", got "@ + d.address->0@)
    } else {
        accepted(m)
    }
}

/// The outcome of validating a bearer confirmation (SAML Profiles 4.1.4.2).
pub open spec fn bearer_result(c: SubjectConfirmation, p: BearerValidationParams) -> ConfirmationView {
    if c.method@ != CM_BEARER@ {
        rejected(c.method@, "expected bearer method, got: "@ + c.method@)
    } else {
        match c.subject_confirmation_data {
            None => rejected(CM_BEARER@, "missing SubjectConfirmationData"@),
            Some(d) => bearer_data_result(d, p),
        }
    }
}

/// The address check of a bearer confirmation.
fn check_bearer_address(d: &SubjectConfirmationData, params: &BearerValidationParams<'_>) -> (r: ConfirmationResult)
    ensures
        confirmation_view(r) == bearer_address_result(*d, *params),
{
    if params.check_address {
        if let (Some(expected), Some(addr)) = (params.client_address, &d.address) {
            if !str_eq(addr.as_str(), expected) {
                return reject(CM_BEARER, concat4("Address mismatch: expected ", expected, ", got ", addr.as_str()));
            }
        }
    }
    ConfirmationResult { method: to_owned_string(CM_BEARER), valid: true, reason: None }
}

/// The request-correlation and address checks of a bearer confirmation.
fn check_bearer_correlation(d: &SubjectConfirmationData, params: &BearerValidationParams<'_>) -> (r:
    ConfirmationResult)
    ensures
        confirmation_view(r) == bearer_correlation_result(*d, *params),
{
    if let Some(expected) = params.in_response_to {
        match &d.in_response_to {
            None => {
                return reject(
                    CM_BEARER,
                    to_owned_string("missing InResponseTo in SubjectConfirmationData for SP-initiated flow"),
                );
            },
            Some(irt) => {
                if !str_eq(irt.as_str(), expected) {
                    return reject(
                        CM_BEARER,
                        concat4("InResponseTo mismatch: expected ", expected, ", got ", irt.as_str()),
                    );
                }
            },
        }
    }
    check_bearer_address(d, params)
}

/// Validate a bearer SubjectConfirmation per SAML Profiles 4.1.4.2:
///
/// 1. SubjectConfirmationData MUST be present
/// 2. Recipient MUST be present and match the ACS URL
/// 3. NotOnOrAfter MUST be present and not expired (with clock skew)
/// 4. NotBefore must not be violated (if present)
/// 5. InResponseTo must match the request ID (if SP-initiated)
/// 6. Address may be checked against the client IP
pub fn validate_bearer(confirmation: &SubjectConfirmation, params: &BearerValidationParams<'_>) -> (r:
    ConfirmationResult)
    ensures
        confirmation_view(r) == bearer_result(*confirmation, *params),
{
    if !str_eq(confirmation.method.as_str(), CM_BEARER) {
        let mut reason = to_owned_string("expected bearer method, got: ");
        push_str(&mut reason, confirmation.method.as_str());
        return reject(confirmation.method.as_str(), reason);
    }
    let d = match &confirmation.subject_confirmation_data {
        Some(d) => d,
        None => return reject(CM_BEARER, to_owned_string("missing SubjectConfirmationData")),
    };
    match &d.recipient {
        None => return reject(CM_BEARER, to_owned_string("missing Recipient in SubjectConfirmationData")),
        Some(rc) => {
            if !str_eq(rc.as_str(), params.recipient) {
                return reject(
                    CM_BEARER,
                    concat4("Recipient mismatch: expected ", params.recipient, ", got ", rc.as_str()),
                );
            }
        },
    }
    let now = params.now;
    let skew = unsigned_seconds_to_nanos(params.clock_skew_seconds);
    match d.not_on_or_after {
        None => return reject(CM_BEARER, to_owned_string("missing NotOnOrAfter in SubjectConfirmationData")),
        Some(noa) => {
            let expired = match now.checked_sub(skew) {
                Some(earliest) => earliest >= noa,
                None => false,
            };
            if expired {
                let t = instant_string(noa);
                let n = instant_string(params.now);
                let reason = concat4("SubjectConfirmationData expired: NotOnOrAfter=", t.as_str(), ", now=", n.as_str());
                return reject(CM_BEARER, reason);
            }
        },
    }
    if let Some(nb) = d.not_before {
        let early = match now.checked_add(skew) {
            Some(latest) => latest < nb,
            None => false,
        };
        if early {
            let t = instant_string(nb);
            let n = instant_string(params.now);
            let reason = concat4("SubjectConfirmationData not yet valid: NotBefore=", t.as_str(), ", now=", n.as_str());
            return reject(CM_BEARER, reason);
        }
    }
    check_bearer_correlation(d, params)
}

/// The bearer confirmation an IdP builds for an assertion.
pub open spec fn is_bearer_confirmation_for(
    c: SubjectConfirmation,
    recipient: Seq<char>,
    not_on_or_after: i128,
    in_response_to: Option<Seq<char>>,
    address: Option<Seq<char>>,
) -> bool {
    &&& c.method@ == CM_BEARER@
    &&& c.name_id is None
    &&& c.subject_confirmation_data matches Some(d) && d.not_before is None && d.not_on_or_after == Some(
        not_on_or_after,
    ) && opt_string_view(d.recipient) == Some(recipient) && opt_string_view(d.in_response_to) == in_response_to
        && opt_string_view(d.address) == address && d.key_info_x509_certs.len() == 0
}

/// Build a bearer SubjectConfirmation for use in assertions (by the IdP, for
/// Web Browser SSO).
pub fn build_bearer_confirmation(
    recipient: &str,
    not_on_or_after: i128,
    in_response_to: Option<&str>,
    address: Option<&str>,
) -> (r: SubjectConfirmation)
    ensures
        is_bearer_confirmation_for(r, recipient@, not_on_or_after, opt_str_view(in_response_to), opt_str_view(address)),
{
    SubjectConfirmation {
        method: to_owned_string(CM_BEARER),
        name_id: None,
        subject_confirmation_data: Some(
            SubjectConfirmationData {
                not_before: None,
                not_on_or_after: Some(not_on_or_after),
                recipient: Some(to_owned_string(recipient)),
                in_response_to: opt_str_to_owned(in_response_to),
                address: opt_str_to_owned(address),
                key_info_x509_certs: Vec::new(),
            },
        ),
    }
}

/// Whether one of the base64 certificates decodes to `der`.
pub open spec fn some_certificate_matches(certs: Seq<Seq<char>>, der: Seq<u8>) -> bool {
    exists|i: int| 0 <= i < certs.len() && base64_standard_decoding(#[trigger] certs[i]) == Some(der)
}

/// The outcome of validating a holder-of-key confirmation against the
/// certificate the presenter proved possession of.
pub open spec fn holder_of_key_result(c: SubjectConfirmation, presented: Option<Seq<u8>>) -> ConfirmationView {
    let m = CM_HOLDER_OF_KEY@;
    if c.method@ != m {
        rejected(c.method@, "expected holder-of-key method, got: "@ + c.method@)
    } else {
        match c.subject_confirmation_data {
            None => rejected(m, "missing SubjectConfirmationData"@),
            Some(d) => if d.key_info_x509_certs.len() == 0 {
                rejected(m, "holder-of-key SubjectConfirmationData has no ds:KeyInfo X509Certificate"@)
            } else {
                match presented {
                    None => rejected(m, "no client certificate presented for proof of possession"@),
                    Some(der) => if some_certificate_matches(strings_view(d.key_info_x509_certs@), der) {
                        accepted(m)
                    } else {
                        rejected(m, "presented certificate does not match any holder-of-key KeyInfo"@)
                    },
                }
            },
        }
    }
}

/// The view of an optional byte slice.
pub open spec fn opt_bytes_view(o: Option<&[u8]>) -> Option<Seq<u8>> {
    match o {
        Some(b) => Some(b@),
        None => None,
    }
}

/// Whether two byte slices are equal.
fn bytes_eq(a: &[u8], b: &[u8]) -> (r: bool)
    ensures
        r == (a@ == b@),
{
    if a.len() != b.len() {
        return false;
    }
    let mut i: usize = 0;
    while i < a.len()
        invariant
            a.len() == b.len(),
            i <= a.len(),
            forall|k: int| 0 <= k < i ==> a@[k] == b@[k],
        decreases a.len() - i,
    {
        if a[i] != b[i] {
            return false;
        }
        i = i + 1;
    }
    assert(a@ =~= b@);
    true
}

/// Validate a holder-of-key SubjectConfirmation against the key the
/// presenter actually proved possession of.
///
/// The confirmation data must carry at least one `ds:KeyInfo` certificate,
/// and the DER certificate the presenter authenticated with (e.g. the TLS
/// client certificate) must equal one of them. Without a presented
/// certificate the confirmation is rejected.
pub fn validate_holder_of_key(confirmation: &SubjectConfirmation, presented_cert_der: Option<&[u8]>) -> (r:
    ConfirmationResult)
    ensures
        confirmation_view(r) == holder_of_key_result(*confirmation, opt_bytes_view(presented_cert_der)),
{
    if !str_eq(confirmation.method.as_str(), CM_HOLDER_OF_KEY) {
        let mut reason = to_owned_string("expected holder-of-key method, got: ");
        push_str(&mut reason, confirmation.method.as_str());
        return reject(confirmation.method.as_str(), reason);
    }
    let d = match &confirmation.subject_confirmation_data {
        Some(d) => d,
        None => return reject(CM_HOLDER_OF_KEY, to_owned_string("missing SubjectConfirmationData")),
    };
    if d.key_info_x509_certs.len() == 0 {
        return reject(
            CM_HOLDER_OF_KEY,
            to_owned_string("holder-of-key SubjectConfirmationData has no ds:KeyInfo X509Certificate"),
        );
    }
    let presented = match presented_cert_der {
        Some(p) => p,
        None => return reject(
            CM_HOLDER_OF_KEY,
            to_owned_string("no client certificate presented for proof of possession"),
        ),
    };
    let mut i: usize = 0;
    while i < d.key_info_x509_certs.len()
        invariant
            i <= d.key_info_x509_certs.len(),
            presented_cert_der == Some(presented),
            confirmation.subject_confirmation_data == Some(*d),
            confirmation.method@ == CM_HOLDER_OF_KEY@,
            d.key_info_x509_certs.len() > 0,
            forall|k: int|
                0 <= k < i ==> base64_standard_decoding(#[trigger] strings_view(d.key_info_x509_certs@)[k])
                    != Some(presented@),
        decreases d.key_info_x509_certs.len() - i,
    {
        let matched = match base64_standard_decode(d.key_info_x509_certs[i].as_str()) {
            Some(der) => bytes_eq(der.as_slice(), presented),
            None => false,
        };
        if matched {
            assert(base64_standard_decoding(strings_view(d.key_info_x509_certs@)[i as int]) == Some(presented@));
            return ConfirmationResult { method: to_owned_string(CM_HOLDER_OF_KEY), valid: true, reason: None };
        }
        i = i + 1;
    }
    reject(CM_HOLDER_OF_KEY, to_owned_string("presented certificate does not match any holder-of-key KeyInfo"))
}

/// The holder-of-key confirmation an IdP builds for a certificate.
pub open spec fn is_holder_of_key_confirmation_for(
    c: SubjectConfirmation,
    cert_der: Seq<u8>,
    not_on_or_after: Option<i128>,
    recipient: Option<Seq<char>>,
    in_response_to: Option<Seq<char>>,
) -> bool {
    &&& c.method@ == CM_HOLDER_OF_KEY@
    &&& c.name_id is None
    &&& c.subject_confirmation_data matches Some(d) && d.not_before is None && d.not_on_or_after == not_on_or_after
        && opt_string_view(d.recipient) == recipient && opt_string_view(d.in_response_to) == in_response_to
        && d.address is None && strings_view(d.key_info_x509_certs@) == seq![base64_encoding(false, true, cert_der)]
}

/// Build a holder-of-key SubjectConfirmation binding the subject to a
/// certificate (used by the IdP when issuing HoK assertions).
pub fn build_holder_of_key_confirmation(
    subject_cert_der: &[u8],
    not_on_or_after: Option<i128>,
    recipient: Option<&str>,
    in_response_to: Option<&str>,
) -> (r: SubjectConfirmation)
    ensures
        is_holder_of_key_confirmation_for(
            r,
            subject_cert_der@,
            not_on_or_after,
            opt_str_view(recipient),
            opt_str_view(in_response_to),
        ),
        r.subject_confirmation_data matches Some(d) && base64_standard_decoding(d.key_info_x509_certs@[0]@) == Some(
            subject_cert_der@,
        ),
{
    let mut certs: Vec<String> = Vec::new();
    certs.push(base64_standard_encode(subject_cert_der));
    assert(strings_view(certs@) =~= seq![base64_encoding(false, true, subject_cert_der@)]);
    SubjectConfirmation {
        method: to_owned_string(CM_HOLDER_OF_KEY),
        name_id: None,
        subject_confirmation_data: Some(
            SubjectConfirmationData {
                not_before: None,
                not_on_or_after,
                recipient: opt_str_to_owned(recipient),
                in_response_to: opt_str_to_owned(in_response_to),
                address: None,
                key_info_x509_certs: certs,
            },
        ),
    }
}

/// The outcome of validating a sender-vouches confirmation: any
/// confirmation with that method holds (trust comes from the transport).
pub open spec fn sender_vouches_result(c: SubjectConfirmation) -> ConfirmationView {
    if c.method@ != CM_SENDER_VOUCHES@ {
        rejected(c.method@, "expected sender-vouches method, got: "@ + c.method@)
    } else {
        accepted(CM_SENDER_VOUCHES@)
    }
}

/// Validate a sender-vouches SubjectConfirmation. The sender asserts the
/// identity; trust is established by transport-level authentication.
pub fn validate_sender_vouches(confirmation: &SubjectConfirmation) -> (r: ConfirmationResult)
    ensures
        confirmation_view(r) == sender_vouches_result(*confirmation),
{
    if !str_eq(confirmation.method.as_str(), CM_SENDER_VOUCHES) {
        let mut reason = to_owned_string("expected sender-vouches method, got: ");
        push_str(&mut reason, confirmation.method.as_str());
        return reject(confirmation.method.as_str(), reason);
    }
    ConfirmationResult { method: to_owned_string(CM_SENDER_VOUCHES), valid: true, reason: None }
}

/// Validate any subject confirmation, dispatching by method.
///
/// A bearer confirmation needs the bearer parameters; holder-of-key uses the
/// certificate the presenter proved possession of; any other method is
/// unsupported.
pub fn validate_confirmation(
    confirmation: &SubjectConfirmation,
    bearer_params: Option<&BearerValidationParams<'_>>,
    hok_presented_cert_der: Option<&[u8]>,
) -> (r: Result<ConfirmationResult, ProfileError>)
    ensures
        confirmation.method@ == CM_BEARER@ ==> match bearer_params {
            Some(p) => r matches Ok(c) && confirmation_view(c) == bearer_result(*confirmation, *p),
            None => r matches Err(e) && e == ProfileError::BearerMissingConfirmationData,
        },
        confirmation.method@ == CM_HOLDER_OF_KEY@ ==> (r matches Ok(c) && confirmation_view(c)
            == holder_of_key_result(*confirmation, opt_bytes_view(hok_presented_cert_der))),
        confirmation.method@ == CM_SENDER_VOUCHES@ ==> (r matches Ok(c) && confirmation_view(c)
            == sender_vouches_result(*confirmation)),
        confirmation.method@ != CM_BEARER@ && confirmation.method@ != CM_HOLDER_OF_KEY@ && confirmation.method@
            != CM_SENDER_VOUCHES@ ==> (r matches Err(ProfileError::UnsupportedConfirmationMethod(m)) && m@
            == confirmation.method@),
{
    proof {
        crate::assertion::lemma_confirmation_methods_distinct();
    }
    let method = confirmation.method.as_str();
    if str_eq(method, CM_BEARER) {
        match bearer_params {
            Some(p) => Ok(validate_bearer(confirmation, p)),
            None => Err(ProfileError::BearerMissingConfirmationData),
        }
    } else if str_eq(method, CM_HOLDER_OF_KEY) {
        Ok(validate_holder_of_key(confirmation, hok_presented_cert_der))
    } else if str_eq(method, CM_SENDER_VOUCHES) {
        Ok(validate_sender_vouches(confirmation))
    } else {
        Err(ProfileError::UnsupportedConfirmationMethod(to_owned_string(method)))
    }
}

/// A bearer confirmation is accepted only when every check of SAML Profiles
/// 4.1.4.2 holds: the method is bearer; the data names the expected
/// recipient; its NotOnOrAfter is present and still ahead of the clock less
/// the skew; its NotBefore, if any, is not beyond the clock plus the skew;
/// when the SP sent a request, the data answers exactly that request; and,
/// when addresses are checked, the addresses agree. An accepted confirmation
/// carries no reason and a rejected one always does.
pub proof fn lemma_accepted_bearer_meets_every_check(c: SubjectConfirmation, p: BearerValidationParams)
    ensures
        bearer_result(c, p).valid == (bearer_result(c, p).reason is None),
        bearer_result(c, p).valid ==> {
            &&& c.method@ == CM_BEARER@
            &&& c.subject_confirmation_data matches Some(d) && {
                &&& d.recipient matches Some(rc) && rc@ == p.recipient@
                &&& d.not_on_or_after matches Some(noa) && p.now - seconds_span(p.clock_skew_seconds as int) < noa
                &&& (d.not_before matches Some(nb) ==> nb <= p.now + seconds_span(p.clock_skew_seconds as int))
                &&& (p.in_response_to matches Some(e) ==> (d.in_response_to matches Some(irt) && irt@ == e@))
                &&& (p.check_address && p.client_address is Some && d.address is Some ==> d.address->0@
                    == p.client_address->0@)
            }
        },
{
}

/// A bearer confirmation the IdP built validates at the SP it was built for:
/// the recipient is the SP's ACS URL, the SP's clock (less the skew) is
/// before the confirmation's end and not before its start, the request it
/// answers is the one the SP sent, and the address (when checked) matches.
pub proof fn lemma_built_bearer_validates(
    c: SubjectConfirmation,
    recipient: Seq<char>,
    not_on_or_after: i128,
    in_response_to: Option<Seq<char>>,
    address: Option<Seq<char>>,
    p: BearerValidationParams,
)
    requires
        is_bearer_confirmation_for(c, recipient, not_on_or_after, in_response_to, address),
        p.recipient@ == recipient,
        p.now - seconds_span(p.clock_skew_seconds as int) < not_on_or_after,
        p.in_response_to matches Some(e) ==> in_response_to == Some(e@),
        p.check_address && p.client_address is Some && address is Some ==> address == Some(p.client_address->0@),
    ensures
        bearer_result(c, p).valid,
{
}

/// A holder-of-key confirmation the IdP built for a certificate validates
/// when the presenter proves possession of that certificate.
pub proof fn lemma_built_holder_of_key_validates(
    c: SubjectConfirmation,
    cert_der: Seq<u8>,
    not_on_or_after: Option<i128>,
    recipient: Option<Seq<char>>,
    in_response_to: Option<Seq<char>>,
)
    requires
        is_holder_of_key_confirmation_for(c, cert_der, not_on_or_after, recipient, in_response_to),
        c.subject_confirmation_data matches Some(d) && base64_standard_decoding(d.key_info_x509_certs@[0]@) == Some(
            cert_der,
        ),
    ensures
        holder_of_key_result(c, Some(cert_der)).valid,
{
    let d = c.subject_confirmation_data->0;
    assert(strings_view(d.key_info_x509_certs@).len() == d.key_info_x509_certs@.len());
    assert(strings_view(d.key_info_x509_certs@)[0] == d.key_info_x509_certs@[0]@);
}

} // verus!
