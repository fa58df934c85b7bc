//! SAML protocol messages used by the profiles: identifiers, issuers, name
//! identifiers, status codes, and the request/response pairs of the logout,
//! artifact resolution, query, name identifier mapping and management
//! protocols.
//!
//! Instants are carried as nanoseconds since the Unix epoch (`i128`).

use vstd::prelude::*;
use crate::assertion::{Attribute, AttributeStatement, AuthnStatement, SubjectConfirmation};
use crate::text::{decimal_string_i128, opt_str_view, opt_string_view, signed_decimal_text, string_push, to_owned_string};

verus! {

/// Top-level status code: the request succeeded.
pub const STATUS_SUCCESS: &'static str = "urn:oasis:names:tc:SAML:2.0:status:Success";

/// Top-level status code: the request failed because of the requester.
pub const STATUS_REQUESTER: &'static str = "urn:oasis:names:tc:SAML:2.0:status:Requester";

/// Top-level status code: the request failed because of the responder.
pub const STATUS_RESPONDER: &'static str = "urn:oasis:names:tc:SAML:2.0:status:Responder";

/// Second-level status code: not every session participant was logged out.
pub const STATUS_PARTIAL_LOGOUT: &'static str = "urn:oasis:names:tc:SAML:2.0:status:PartialLogout";

/// NameID format of an entity identifier.
pub const NAMEID_FORMAT_ENTITY: &'static str = "urn:oasis:names:tc:SAML:2.0:nameid-format:entity";

/// The SAML protocol version of a message.
#[derive(Debug, Clone, Copy, PartialEq, Eq, Structural)]
pub enum SamlVersion {
    /// SAML 2.0.
    V2_0,
}

// ── Identifiers ─────────────────────────────────────────────────────────────

/// Whether `c` is a lower-case hexadecimal digit.
pub open spec fn is_lower_hex(c: char) -> bool {
    ('0' <= c && c <= '9') || ('a' <= c && c <= 'f')
}

/// The shape of a generated message ID: an underscore followed by 32
/// lower-case hexadecimal digits (128 random bits). The leading underscore
/// keeps the value a valid `xs:ID`, which cannot start with a digit.
pub open spec fn is_generated_id(s: Seq<char>) -> bool {
    &&& s.len() == 33
    &&& s[0] == '_'
    &&& forall|i: int| 1 <= i < 33 ==> is_lower_hex(#[trigger] s[i])
}

/// A random 64-bit value, drawn from the standard library's per-process
/// randomly keyed hasher. Nothing is stated of the value.
#[verifier::external_body]
fn random_u64() -> u64 {
    std::hash::BuildHasher::hash_one(&std::collections::hash_map::RandomState::new(), 0u64)
}

/// The lower-case hexadecimal digit of the value `d` (below 16).
pub open spec fn hex_char(d: int) -> char {
    if d < 10 {
        (d + 48) as char
    } else {
        (d + 87) as char
    }
}

/// The lower-case hexadecimal digit for `d`.
fn hex_digit(d: u64) -> (c: char)
    requires
        d < 16,
    ensures
        c == hex_char(d as int),
        is_lower_hex(c),
{
    match d {
        0 => '0',
        1 => '1',
        2 => '2',
        3 => '3',
        4 => '4',
        5 => '5',
        6 => '6',
        7 => '7',
        8 => '8',
        9 => '9',
        10 => 'a',
        11 => 'b',
        12 => 'c',
        13 => 'd',
        14 => 'e',
        _ => 'f',
    }
}

/// The 4-bit digit `i` of `v`, counting from the most significant (0) to
/// the least significant (15).
pub open spec fn hex_nibble(v: u64, i: int) -> int {
    ((v >> ((60 - 4 * i) as u64)) & 15) as int
}

/// `v` in lower-case hexadecimal, as 16 digits with the most significant
/// first.
pub open spec fn hex_u64_text(v: u64) -> Seq<char> {
    Seq::new(16, |i: int| hex_char(hex_nibble(v, i)))
}

/// Appends the 16 hexadecimal digits of `v` (most significant first).
fn push_hex_u64(out: &mut String, v: u64)
    ensures
        final(out)@ == old(out)@ + hex_u64_text(v),
        forall|i: int| old(out)@.len() <= i < final(out)@.len() ==> is_lower_hex(#[trigger] final(out)@[i]),
{
    let ghost start = out@;
    let mut k: u64 = 0;
    while k < 16
        invariant
            k <= 16,
            out@ == start + hex_u64_text(v).take(k as int),
            forall|i: int| start.len() <= i < out@.len() ==> is_lower_hex(#[trigger] out@[i]),
        decreases 16 - k,
    {
        let shift: u64 = 60 - 4 * k;
        let d: u64 = (v >> shift) & 15;
        assert(d < 16) by (bit_vector)
            requires
                d == (v >> shift) & 15,
        ;
        let c = hex_digit(d);
        assert(c == hex_u64_text(v)[k as int]);
        let ghost before = out@;
        string_push(out, c);
        assert(hex_u64_text(v).take(k + 1) =~= hex_u64_text(v).take(k as int).push(c));
        assert(out@ =~= start + hex_u64_text(v).take(k + 1));
        k = k + 1;
    }
    assert(hex_u64_text(v).take(16) =~= hex_u64_text(v));
}

/// A fresh message ID: `_` followed by 128 random bits in hexadecimal.
pub fn generate_saml_id() -> (r: String)
    ensures
        is_generated_id(r@),
{
    let mut out = String::new();
    string_push(&mut out, '_');
    let ghost s1 = out@;
    push_hex_u64(&mut out, random_u64());
    let ghost s2 = out@;
    push_hex_u64(&mut out, random_u64());
    proof {
        let s3 = out@;
        assert(s2[0] == s2.subrange(0, 1)[0]);
        assert(s3[0] == s3.subrange(0, 17)[0]);
        assert forall|i: int| 1 <= i < 33 implies is_lower_hex(#[trigger] s3[i]) by {
            if i < 17 {
                assert(s3[i] == s3.subrange(0, 17)[i]);
            }
        }
    }
    out
}

/// Nanoseconds in one second.
pub const NANOS_PER_SECOND: i128 = 1_000_000_000;

/// A span of `secs` seconds, in nanoseconds.
pub open spec fn seconds_span(secs: int) -> int {
    secs * 1_000_000_000
}

/// `secs` seconds as a span of nanoseconds.
pub fn seconds_to_nanos(secs: i64) -> (r: i128)
    ensures
        r == seconds_span(secs as int),
{
    (secs as i128) * NANOS_PER_SECOND
}

/// `secs` (unsigned) seconds as a span of nanoseconds.
pub fn unsigned_seconds_to_nanos(secs: u64) -> (r: i128)
    ensures
        r == seconds_span(secs as int),
{
    (secs as i128) * NANOS_PER_SECOND
}

/// The current time from the system clock (`chrono::Utc::now`): its whole
/// seconds since the Unix epoch (`timestamp`) and the nanoseconds past that
/// second (`timestamp_subsec_nanos`). Nothing is stated of the values.
#[verifier::external_body]
fn clock_now() -> (u: (i64, u32)) {
    let t = chrono::Utc::now();
    (t.timestamp(), t.timestamp_subsec_nanos())
}

/// The current instant, in nanoseconds since the Unix epoch.
pub(crate) fn unix_now() -> i128 {
    let (secs, nanos) = clock_now();
    (secs as i128) * NANOS_PER_SECOND + (nanos as i128)
}

/// The whole seconds of the instant `t` (nanoseconds since the Unix epoch),
/// rounded towards the past.
pub open spec fn instant_seconds(t: int) -> int {
    t / 1_000_000_000
}

/// The nanoseconds of the instant `t` past its whole second.
pub open spec fn instant_subsec(t: int) -> int {
    t % 1_000_000_000
}

/// The instant `t` (nanoseconds since the Unix epoch) as whole seconds and
/// the nanoseconds past them, or `None` when the seconds do not fit in 64
/// bits.
pub fn split_instant(t: i128) -> (r: Option<(i64, u32)>)
    ensures
        match r {
            Some((secs, nanos)) => secs == instant_seconds(t as int) && nanos == instant_subsec(t as int),
            None => !(i64::MIN <= instant_seconds(t as int) <= i64::MAX),
        },
{
    if t >= 0 {
        let m: u128 = t as u128;
        let q: u128 = m / 1_000_000_000;
        let rem: u128 = m % 1_000_000_000;
        proof {
            vstd::arithmetic::div_mod::lemma_fundamental_div_mod_converse(t as int, 1_000_000_000, q as int, rem as int);
        }
        if q > 9223372036854775807u128 {
            None
        } else {
            Some((q as i64, rem as u32))
        }
    } else {
        let m: u128 = (-(t + 1)) as u128;
        let q: u128 = m / 1_000_000_000;
        let rem: u128 = m % 1_000_000_000;
        proof {
            vstd::arithmetic::div_mod::lemma_fundamental_div_mod(m as int, 1_000_000_000);
            vstd::arithmetic::div_mod::lemma_fundamental_div_mod_converse(
                t as int,
                1_000_000_000,
                -(q as int) - 1,
                999_999_999 - rem as int,
            );
        }
        if q > 9223372036854775807u128 {
            None
        } else {
            Some((-(q as i64) - 1, (999_999_999 - rem) as u32))
        }
    }
}

/// The RFC 3339 text in UTC, to the second and with a `Z` suffix (such as
/// `2024-01-01T00:00:00Z`), of the instant `secs` seconds and `nanos`
/// nanoseconds after the Unix epoch, or `None` when chrono cannot represent
/// that instant.
pub uninterp spec fn rfc3339_instant(secs: i64, nanos: u32) -> Option<Seq<char>>;

/// `chrono::DateTime::from_timestamp` with `to_rfc3339_opts(Secs, true)`:
/// the result is named as a function of `secs` and `nanos` alone.
#[verifier::external_body]
pub(crate) fn format_instant(secs: i64, nanos: u32) -> (r: Option<String>)
    ensures
        opt_string_view(r) == rfc3339_instant(secs, nanos),
{
    chrono::DateTime::from_timestamp(secs, nanos).map(|d| d.to_rfc3339_opts(chrono::SecondsFormat::Secs, true))
}

/// The text chrono's `Display` gives the UTC instant `secs` seconds and
/// `nanos` nanoseconds after the Unix epoch (such as
/// `2024-01-01 00:00:00.500 UTC`), or `None` when chrono cannot represent
/// that instant.
pub uninterp spec fn utc_display(secs: i64, nanos: u32) -> Option<Seq<char>>;

/// `chrono::DateTime::from_timestamp` shown through `Display`: the result is
/// named as a function of `secs` and `nanos` alone.
#[verifier::external_body]
pub(crate) fn display_utc(secs: i64, nanos: u32) -> (r: Option<String>)
    ensures
        opt_string_view(r) == utc_display(secs, nanos),
{
    chrono::DateTime::from_timestamp(secs, nanos).map(|d| d.to_string())
}

/// The RFC 3339 text of the instant `t` (nanoseconds since the Unix epoch),
/// or `None` when chrono cannot represent it.
pub open spec fn instant_rfc3339(t: i128) -> Option<Seq<char>> {
    if i64::MIN <= instant_seconds(t as int) <= i64::MAX {
        rfc3339_instant(instant_seconds(t as int) as i64, instant_subsec(t as int) as u32)
    } else {
        None
    }
}

/// The RFC 3339 text of the instant `t`, or `None` when chrono cannot
/// represent it.
pub fn rfc3339_string(t: i128) -> (r: Option<String>)
    ensures
        opt_string_view(r) == instant_rfc3339(t),
{
    match split_instant(t) {
        Some((secs, nanos)) => format_instant(secs, nanos),
        None => None,
    }
}

/// How an instant (nanoseconds since the Unix epoch) is shown in messages:
/// as chrono displays it in UTC, or as decimal nanoseconds when chrono
/// cannot represent it.
pub open spec fn instant_display(t: i128) -> Seq<char> {
    let shown = if i64::MIN <= instant_seconds(t as int) <= i64::MAX {
        utc_display(instant_seconds(t as int) as i64, instant_subsec(t as int) as u32)
    } else {
        None
    };
    match shown {
        Some(s) => s,
        None => signed_decimal_text(t as int),
    }
}

/// The message text of the instant `t`.
pub fn instant_string(t: i128) -> (r: String)
    ensures
        r@ == instant_display(t),
{
    let shown = match split_instant(t) {
        Some((secs, nanos)) => display_utc(secs, nanos),
        None => None,
    };
    match shown {
        Some(s) => s,
        None => decimal_string_i128(t),
    }
}

// ── Names ───────────────────────────────────────────────────────────────────

/// `<saml:Issuer>`.
#[derive(Debug, Clone, PartialEq)]
pub struct Issuer {
    /// The issuer's identifier (normally an entity ID).
    pub value: String,
    /// The `Format` attribute, if any.
    pub format: Option<String>,
    /// The `NameQualifier` attribute, if any.
    pub name_qualifier: Option<String>,
    /// The `SPNameQualifier` attribute, if any.
    pub sp_name_qualifier: Option<String>,
}

impl Issuer {
    /// An issuer naming an entity by its entity ID (the format attribute is
    /// omitted, which means the entity format).
    pub fn entity(entity_id: &str) -> (r: Issuer)
        ensures
            r.value@ == entity_id@,
            r.format is None,
            r.name_qualifier is None,
            r.sp_name_qualifier is None,
    {
        Issuer { value: to_owned_string(entity_id), format: None, name_qualifier: None, sp_name_qualifier: None }
    }
}

/// `<saml:NameID>`.
#[derive(Debug, Clone, PartialEq)]
pub struct NameId {
    /// The identifier value.
    pub value: String,
    /// The `Format` attribute, if any.
    pub format: Option<String>,
    /// The `NameQualifier` attribute, if any.
    pub name_qualifier: Option<String>,
    /// The `SPNameQualifier` attribute, if any.
    pub sp_name_qualifier: Option<String>,
    /// The `SPProvidedID` attribute, if any.
    pub sp_provided_id: Option<String>,
}

/// The views of a name identifier's fields.
pub type NameIdView = (Seq<char>, Option<Seq<char>>, Option<Seq<char>>, Option<Seq<char>>, Option<Seq<char>>);

/// Clones an optional owned string, keeping its characters.
pub fn opt_string_clone(o: &Option<String>) -> (r: Option<String>)
    ensures
        opt_string_view(r) == opt_string_view(*o),
{
    match o {
        Some(s) => Some(to_owned_string(s.as_str())),
        None => None,
    }
}

impl NameId {
    /// The fields of the name identifier, as character sequences.
    pub open spec fn view_fields(self) -> NameIdView {
        (
            self.value@,
            opt_string_view(self.format),
            opt_string_view(self.name_qualifier),
            opt_string_view(self.sp_name_qualifier),
            opt_string_view(self.sp_provided_id),
        )
    }

    /// A copy with the same field values.
    pub fn duplicate(&self) -> (r: NameId)
        ensures
            r.view_fields() == self.view_fields(),
    {
        NameId {
            value: to_owned_string(self.value.as_str()),
            format: opt_string_clone(&self.format),
            name_qualifier: opt_string_clone(&self.name_qualifier),
            sp_name_qualifier: opt_string_clone(&self.sp_name_qualifier),
            sp_provided_id: opt_string_clone(&self.sp_provided_id),
        }
    }
}

/// A plain or an encrypted name identifier.
#[derive(Debug, Clone)]
pub enum NameIdOrEncryptedId {
    /// A cleartext `<saml:NameID>`.
    NameId(NameId),
    /// An `<saml:EncryptedID>`, kept as its serialized XML.
    EncryptedId(String),
}

// ── Status ──────────────────────────────────────────────────────────────────

/// `<samlp:StatusCode>`, with its optional nested code.
#[derive(Debug)]
pub struct StatusCode {
    /// The status code URI.
    pub value: String,
    /// The second-level status code, if any.
    pub sub_status: Option<Box<StatusCode>>,
}

/// `<samlp:Status>`.
#[derive(Debug)]
pub struct Status {
    /// The top-level status code.
    pub status_code: StatusCode,
    /// The `<samlp:StatusMessage>`, if any.
    pub status_message: Option<String>,
    /// The `<samlp:StatusDetail>` content, if any.
    pub status_detail: Option<String>,
}

/// The second-level code of a status, as a character sequence, if any.
pub open spec fn sub_status_value(s: Status) -> Option<Seq<char>> {
    match s.status_code.sub_status {
        Some(b) => Some(b.value@),
        None => None,
    }
}

/// A status that has exactly the given top-level code, second-level code
/// (which itself has none) and message, and no detail.
pub open spec fn status_is(s: Status, code: Seq<char>, sub: Option<Seq<char>>, message: Option<Seq<char>>) -> bool {
    &&& s.status_code.value@ == code
    &&& sub_status_value(s) == sub
    &&& (s.status_code.sub_status matches Some(b) ==> b.sub_status is None)
    &&& opt_string_view(s.status_message) == message
    &&& s.status_detail is None
}

impl Status {
    /// A Success status with no message.
    pub fn success() -> (r: Status)
        ensures
            status_is(r, STATUS_SUCCESS@, None, None),
    {
        Status {
            status_code: StatusCode { value: to_owned_string(STATUS_SUCCESS), sub_status: None },
            status_message: None,
            status_detail: None,
        }
    }

    /// A Requester failure with an optional message.
    pub fn requester(message: Option<String>) -> (r: Status)
        ensures
            status_is(r, STATUS_REQUESTER@, None, opt_string_view(message)),
    {
        Status {
            status_code: StatusCode { value: to_owned_string(STATUS_REQUESTER), sub_status: None },
            status_message: message,
            status_detail: None,
        }
    }

    /// A Responder failure with an optional message.
    pub fn responder(message: Option<String>) -> (r: Status)
        ensures
            status_is(r, STATUS_RESPONDER@, None, opt_string_view(message)),
    {
        Status {
            status_code: StatusCode { value: to_owned_string(STATUS_RESPONDER), sub_status: None },
            status_message: message,
            status_detail: None,
        }
    }

    /// A status with a top-level code, a second-level code and an optional
    /// message.
    pub fn with_sub_status(code: &str, sub_code: &str, message: Option<String>) -> (r: Status)
        ensures
            status_is(r, code@, Some(sub_code@), opt_string_view(message)),
    {
        Status {
            status_code: StatusCode {
                value: to_owned_string(code),
                sub_status: Some(Box::new(StatusCode { value: to_owned_string(sub_code), sub_status: None })),
            },
            status_message: message,
            status_detail: None,
        }
    }

    /// Whether the top-level code is Success.
    pub fn is_success(&self) -> (r: bool)
        ensures
            r == (self.status_code.value@ == STATUS_SUCCESS@),
    {
        crate::text::str_eq(self.status_code.value.as_str(), STATUS_SUCCESS)
    }
}

// ── Logout messages ─────────────────────────────────────────────────────────

/// `<samlp:LogoutRequest>`.
#[derive(Debug, Clone)]
pub struct LogoutRequest {
    /// The message ID.
    pub id: String,
    /// The protocol version.
    pub version: SamlVersion,
    /// When the message was issued.
    pub issue_instant: i128,
    /// The `Destination` attribute, if any.
    pub destination: Option<String>,
    /// The `Consent` attribute, if any.
    pub consent: Option<String>,
    /// The message issuer, if any.
    pub issuer: Option<Issuer>,
    /// Whether the message carries an enveloped signature.
    pub has_signature: bool,
    /// The instant from which the request is no longer valid, if any.
    pub not_on_or_after: Option<i128>,
    /// The logout reason URI, if any.
    pub reason: Option<String>,
    /// The principal to log out.
    pub name_id: NameIdOrEncryptedId,
    /// The session indexes to terminate.
    pub session_indexes: Vec<String>,
}

/// `<samlp:LogoutResponse>`.
#[derive(Debug)]
pub struct LogoutResponse {
    /// The message ID.
    pub id: String,
    /// The protocol version.
    pub version: SamlVersion,
    /// When the message was issued.
    pub issue_instant: i128,
    /// The `Destination` attribute, if any.
    pub destination: Option<String>,
    /// The `Consent` attribute, if any.
    pub consent: Option<String>,
    /// The message issuer, if any.
    pub issuer: Option<Issuer>,
    /// Whether the message carries an enveloped signature.
    pub has_signature: bool,
    /// The ID of the request this answers, if any.
    pub in_response_to: Option<String>,
    /// The outcome.
    pub status: Status,
}

/// The issuer value of an optional issuer.
pub open spec fn issuer_value(i: Option<Issuer>) -> Option<Seq<char>> {
    match i {
        Some(i) => Some(i.value@),
        None => None,
    }
}

/// Whether an optional issuer names `entity` with no other attributes.
pub open spec fn is_entity_issuer(i: Option<Issuer>, entity: Seq<char>) -> bool {
    i matches Some(i) && i.value@ == entity && i.format is None && i.name_qualifier is None
        && i.sp_name_qualifier is None
}

// ── Requests ────────────────────────────────────────────────────────────────

/// The `Comparison` attribute of `<samlp:RequestedAuthnContext>`.
#[derive(Debug, Clone, Copy, PartialEq, Eq, Structural)]
pub enum AuthnContextComparison {
    /// The context must be one of those listed.
    Exact,
    /// The context must be at least as strong as one listed.
    Minimum,
    /// The context must be as strong as possible without exceeding those listed.
    Maximum,
    /// The context must be stronger than any listed.
    Better,
}

/// `<samlp:RequestedAuthnContext>`.
#[derive(Debug, Clone)]
pub struct RequestedAuthnContext {
    /// The `<saml:AuthnContextClassRef>` values.
    pub authn_context_class_refs: Vec<String>,
    /// The `<saml:AuthnContextDeclRef>` values.
    pub authn_context_decl_refs: Vec<String>,
    /// How the contexts are compared.
    pub comparison: AuthnContextComparison,
}

/// `<samlp:NameIDPolicy>`.
#[derive(Debug, Clone)]
pub struct NameIdPolicy {
    /// The requested NameID format, if any.
    pub format: Option<String>,
    /// The requested SP name qualifier, if any.
    pub sp_name_qualifier: Option<String>,
    /// Whether the IdP may create a new identifier.
    pub allow_create: bool,
}

/// `<samlp:Scoping>`.
#[derive(Debug, Clone)]
pub struct Scoping {
    /// The `ProxyCount` attribute, if any.
    pub proxy_count: Option<u32>,
    /// The entity IDs of the `<samlp:IDPList>`.
    pub idp_list: Vec<String>,
    /// The `<samlp:RequesterID>` entity IDs.
    pub requester_ids: Vec<String>,
}

/// The attributes common to every request.
#[derive(Debug, Clone)]
pub struct RequestBase {
    /// The message ID.
    pub id: String,
    /// The protocol version.
    pub version: SamlVersion,
    /// When the message was issued, in nanoseconds since the epoch.
    pub issue_instant: i128,
    /// The `Destination` attribute, if any.
    pub destination: Option<String>,
    /// The `Consent` attribute, if any.
    pub consent: Option<String>,
    /// The message issuer, if any.
    pub issuer: Option<Issuer>,
    /// Whether the message carries an enveloped signature.
    pub has_signature: bool,
}

/// `<samlp:AuthnRequest>`.
#[derive(Debug, Clone)]
pub struct AuthnRequest {
    /// The common request attributes.
    pub base: RequestBase,
    /// The requested name identifier policy, if any.
    pub name_id_policy: Option<NameIdPolicy>,
    /// The requested authentication context, if any.
    pub requested_authn_context: Option<RequestedAuthnContext>,
    /// The scoping, if any.
    pub scoping: Option<Scoping>,
    /// `ForceAuthn`, if stated.
    pub force_authn: Option<bool>,
    /// `IsPassive`, if stated.
    pub is_passive: Option<bool>,
    /// `AssertionConsumerServiceIndex`, if stated.
    pub assertion_consumer_service_index: Option<u16>,
    /// `AssertionConsumerServiceURL`, if stated.
    pub assertion_consumer_service_url: Option<String>,
    /// `ProtocolBinding`, if stated.
    pub protocol_binding: Option<String>,
    /// `AttributeConsumingServiceIndex`, if stated.
    pub attribute_consuming_service_index: Option<u16>,
    /// `ProviderName`, if stated.
    pub provider_name: Option<String>,
    /// The raw `<samlp:Extensions>` element, if any.
    pub extensions: Option<String>,
}

/// The common header of a freshly created message: a generated ID, version
/// 2.0, the destination `dest`, no consent, the issuer naming `entity`, and
/// no signature.
pub open spec fn is_fresh_header(
    id: String,
    version: SamlVersion,
    destination: Option<String>,
    consent: Option<String>,
    issuer: Option<Issuer>,
    has_signature: bool,
    entity: Seq<char>,
    dest: Option<Seq<char>>,
) -> bool {
    &&& is_generated_id(id@)
    &&& version == SamlVersion::V2_0
    &&& opt_string_view(destination) == dest
    &&& consent is None
    &&& is_entity_issuer(issuer, entity)
    &&& !has_signature
}

/// An owned copy of an optional string slice (message destinations).
pub fn opt_destination(o: Option<&str>) -> (r: Option<String>)
    ensures
        opt_string_view(r) == opt_str_view(o),
{
    match o {
        Some(s) => Some(to_owned_string(s)),
        None => None,
    }
}

/// Whether two name identifiers (plain or encrypted) have the same content.
pub open spec fn same_name_id_or_encrypted(a: NameIdOrEncryptedId, b: NameIdOrEncryptedId) -> bool {
    match (a, b) {
        (NameIdOrEncryptedId::NameId(x), NameIdOrEncryptedId::NameId(y)) => x.view_fields() == y.view_fields(),
        (NameIdOrEncryptedId::EncryptedId(x), NameIdOrEncryptedId::EncryptedId(y)) => x@ == y@,
        _ => false,
    }
}

impl NameIdOrEncryptedId {
    /// A copy with the same content.
    pub fn duplicate(&self) -> (r: NameIdOrEncryptedId)
        ensures
            same_name_id_or_encrypted(r, *self),
    {
        match self {
            NameIdOrEncryptedId::NameId(n) => NameIdOrEncryptedId::NameId(n.duplicate()),
            NameIdOrEncryptedId::EncryptedId(x) => NameIdOrEncryptedId::EncryptedId(to_owned_string(x.as_str())),
        }
    }
}

// ── Subjects and assertions ─────────────────────────────────────────────────

/// `<saml:Subject>`.
#[derive(Debug, Clone)]
pub struct Subject {
    /// The subject's name identifier, if any.
    pub name_id: Option<NameIdOrEncryptedId>,
    /// The subject confirmations.
    pub subject_confirmations: Vec<SubjectConfirmation>,
}

/// `<saml:AudienceRestriction>`.
#[derive(Debug, Clone)]
pub struct AudienceRestriction {
    /// The audiences, any of which may rely on the assertion.
    pub audiences: Vec<String>,
}

/// `<saml:ProxyRestriction>`.
#[derive(Debug, Clone)]
pub struct ProxyRestriction {
    /// The maximum number of proxy hops, if limited.
    pub count: Option<u32>,
    /// The audiences to which a proxying IdP may issue.
    pub audiences: Vec<String>,
}

/// `<saml:Conditions>`; instants are nanoseconds since the epoch.
#[derive(Debug, Clone)]
pub struct Conditions {
    /// `NotBefore`, if stated.
    pub not_before: Option<i128>,
    /// `NotOnOrAfter`, if stated.
    pub not_on_or_after: Option<i128>,
    /// The audience restrictions.
    pub audience_restrictions: Vec<AudienceRestriction>,
    /// Whether `<saml:OneTimeUse>` is present.
    pub one_time_use: bool,
    /// The proxy restriction, if any.
    pub proxy_restriction: Option<ProxyRestriction>,
}

/// `<saml:Assertion>`, with the statements the profiles read.
#[derive(Debug, Clone)]
pub struct Assertion {
    /// The assertion `ID`.
    pub id: String,
    /// The SAML version.
    pub version: SamlVersion,
    /// When the assertion was issued.
    pub issue_instant: i128,
    /// The issuer.
    pub issuer: Issuer,
    /// Whether the assertion carries a signature.
    pub has_signature: bool,
    /// The subject, if any.
    pub subject: Option<Subject>,
    /// The conditions, if any.
    pub conditions: Option<Conditions>,
    /// The authentication statements.
    pub authn_statements: Vec<AuthnStatement>,
    /// The attribute statements.
    pub attribute_statements: Vec<AttributeStatement>,
}

// ── Artifact resolution ─────────────────────────────────────────────────────

/// `<samlp:ArtifactResolve>`.
#[derive(Debug, Clone)]
pub struct ArtifactResolve {
    /// The message ID.
    pub id: String,
    /// The SAML version.
    pub version: SamlVersion,
    /// When the message was issued.
    pub issue_instant: i128,
    /// The destination, if any.
    pub destination: Option<String>,
    /// The consent, if any.
    pub consent: Option<String>,
    /// The issuer.
    pub issuer: Option<Issuer>,
    /// Whether the message carries a signature.
    pub has_signature: bool,
    /// The base64 artifact to resolve.
    pub artifact: String,
}

/// `<samlp:ArtifactResponse>`.
#[derive(Debug)]
pub struct ArtifactResponse {
    /// The message ID.
    pub id: String,
    /// The SAML version.
    pub version: SamlVersion,
    /// When the message was issued.
    pub issue_instant: i128,
    /// The destination, if any.
    pub destination: Option<String>,
    /// The consent, if any.
    pub consent: Option<String>,
    /// The issuer.
    pub issuer: Option<Issuer>,
    /// Whether the message carries a signature.
    pub has_signature: bool,
    /// The ID of the request answered.
    pub in_response_to: Option<String>,
    /// The status.
    pub status: Status,
    /// The resolved message, serialized.
    pub message: Option<Vec<u8>>,
}

// ── Queries ─────────────────────────────────────────────────────────────────

/// `<samlp:AuthnQuery>`.
#[derive(Debug, Clone)]
pub struct AuthnQuery {
    /// The message ID.
    pub id: String,
    /// The SAML version.
    pub version: SamlVersion,
    /// When the message was issued.
    pub issue_instant: i128,
    /// The destination, if any.
    pub destination: Option<String>,
    /// The consent, if any.
    pub consent: Option<String>,
    /// The issuer.
    pub issuer: Option<Issuer>,
    /// Whether the message carries a signature.
    pub has_signature: bool,
    /// The subject queried about.
    pub subject: Subject,
    /// The session index, if any.
    pub session_index: Option<String>,
    /// The requested authentication context, if any.
    pub requested_authn_context: Option<RequestedAuthnContext>,
}

/// `<samlp:AttributeQuery>`.
#[derive(Debug, Clone)]
pub struct AttributeQuery {
    /// The message ID.
    pub id: String,
    /// The SAML version.
    pub version: SamlVersion,
    /// When the message was issued.
    pub issue_instant: i128,
    /// The destination, if any.
    pub destination: Option<String>,
    /// The consent, if any.
    pub consent: Option<String>,
    /// The issuer.
    pub issuer: Option<Issuer>,
    /// Whether the message carries a signature.
    pub has_signature: bool,
    /// The subject queried about.
    pub subject: Subject,
    /// The attributes requested (all when empty).
    pub attributes: Vec<Attribute>,
}

/// `<saml:Action>`.
#[derive(Debug, Clone)]
pub struct Action {
    /// The action namespace.
    pub namespace: String,
    /// The action.
    pub value: String,
}

/// `<samlp:AuthzDecisionQuery>`.
#[derive(Debug, Clone)]
pub struct AuthzDecisionQuery {
    /// The message ID.
    pub id: String,
    /// The SAML version.
    pub version: SamlVersion,
    /// When the message was issued.
    pub issue_instant: i128,
    /// The destination, if any.
    pub destination: Option<String>,
    /// The consent, if any.
    pub consent: Option<String>,
    /// The issuer.
    pub issuer: Option<Issuer>,
    /// Whether the message carries a signature.
    pub has_signature: bool,
    /// The subject queried about.
    pub subject: Subject,
    /// The resource.
    pub resource: String,
    /// The actions asked about.
    pub actions: Vec<Action>,
    /// The IDs of the assertions offered as evidence, if any.
    pub evidence: Option<Vec<String>>,
}

/// `<samlp:AssertionIDRequest>`.
#[derive(Debug, Clone)]
pub struct AssertionIdRequest {
    /// The message ID.
    pub id: String,
    /// The SAML version.
    pub version: SamlVersion,
    /// When the message was issued.
    pub issue_instant: i128,
    /// The destination, if any.
    pub destination: Option<String>,
    /// The consent, if any.
    pub consent: Option<String>,
    /// The issuer.
    pub issuer: Option<Issuer>,
    /// Whether the message carries a signature.
    pub has_signature: bool,
    /// The IDs of the assertions requested.
    pub assertion_id_refs: Vec<String>,
}

/// The common part of a `<samlp:Response>`.
#[derive(Debug)]
pub struct ResponseBase {
    /// The message ID.
    pub id: String,
    /// The SAML version.
    pub version: SamlVersion,
    /// When the message was issued.
    pub issue_instant: i128,
    /// The destination, if any.
    pub destination: Option<String>,
    /// The consent, if any.
    pub consent: Option<String>,
    /// The issuer.
    pub issuer: Option<Issuer>,
    /// Whether the message carries a signature.
    pub has_signature: bool,
    /// The ID of the request answered.
    pub in_response_to: Option<String>,
    /// The status.
    pub status: Status,
}

/// `<samlp:Response>`.
#[derive(Debug)]
pub struct Response {
    /// The common response fields.
    pub base: ResponseBase,
    /// The cleartext assertions.
    pub assertions: Vec<Assertion>,
    /// The encrypted assertions, serialized.
    pub encrypted_assertions: Vec<String>,
}

// ── Name identifier mapping and management ─────────────────────────────────

/// `<samlp:NameIDMappingRequest>`.
#[derive(Debug, Clone)]
pub struct NameIdMappingRequest {
    /// The message ID.
    pub id: String,
    /// The SAML version.
    pub version: SamlVersion,
    /// When the message was issued.
    pub issue_instant: i128,
    /// The destination, if any.
    pub destination: Option<String>,
    /// The consent, if any.
    pub consent: Option<String>,
    /// The issuer.
    pub issuer: Option<Issuer>,
    /// Whether the message carries a signature.
    pub has_signature: bool,
    /// The principal's name identifier.
    pub name_id: NameIdOrEncryptedId,
    /// The policy for the mapped identifier.
    pub name_id_policy: NameIdPolicy,
}

/// `<samlp:NameIDMappingResponse>`.
#[derive(Debug)]
pub struct NameIdMappingResponse {
    /// The message ID.
    pub id: String,
    /// The SAML version.
    pub version: SamlVersion,
    /// When the message was issued.
    pub issue_instant: i128,
    /// The destination, if any.
    pub destination: Option<String>,
    /// The consent, if any.
    pub consent: Option<String>,
    /// The issuer.
    pub issuer: Option<Issuer>,
    /// Whether the message carries a signature.
    pub has_signature: bool,
    /// The ID of the request answered.
    pub in_response_to: Option<String>,
    /// The status.
    pub status: Status,
    /// The mapped identifier, if any.
    pub name_id: Option<NameIdOrEncryptedId>,
}

/// The change a `<samlp:ManageNameIDRequest>` asks for.
#[derive(Debug, Clone)]
pub enum NewIdOrTerminate {
    /// Replace the identifier's value.
    NewId(String),
    /// Stop using the identifier.
    Terminate,
}

/// `<samlp:ManageNameIDRequest>`.
#[derive(Debug, Clone)]
pub struct ManageNameIdRequest {
    /// The message ID.
    pub id: String,
    /// The SAML version.
    pub version: SamlVersion,
    /// When the message was issued.
    pub issue_instant: i128,
    /// The destination, if any.
    pub destination: Option<String>,
    /// The consent, if any.
    pub consent: Option<String>,
    /// The issuer.
    pub issuer: Option<Issuer>,
    /// Whether the message carries a signature.
    pub has_signature: bool,
    /// The identifier managed.
    pub name_id: NameIdOrEncryptedId,
    /// The change asked for.
    pub new_id_or_terminate: NewIdOrTerminate,
}

/// `<samlp:ManageNameIDResponse>`.
#[derive(Debug)]
pub struct ManageNameIdResponse {
    /// The message ID.
    pub id: String,
    /// The SAML version.
    pub version: SamlVersion,
    /// When the message was issued.
    pub issue_instant: i128,
    /// The destination, if any.
    pub destination: Option<String>,
    /// The consent, if any.
    pub consent: Option<String>,
    /// The issuer.
    pub issuer: Option<Issuer>,
    /// Whether the message carries a signature.
    pub has_signature: bool,
    /// The ID of the request answered.
    pub in_response_to: Option<String>,
    /// The status.
    pub status: Status,
}

// ── Checking a solicited response ──────────────────────────────────────────

/// The message for a response that answers another request.
pub open spec fn irt_mismatch_text(expected: Seq<char>, got: Seq<char>) -> Seq<char> {
    "InResponseTo mismatch: expected "@ + expected + ", got "@ + got
}

/// The message reported for a failed status: its message, else its code.
pub open spec fn status_failure_text(s: Status) -> Seq<char> {
    match s.status_message {
        Some(m) => m@,
        None => s.status_code.value@,
    }
}

/// The message `InResponseTo mismatch: expected {expected}, got {got}`.
pub fn irt_mismatch_message(expected: &str, got: &str) -> (r: String)
    ensures
        r@ == irt_mismatch_text(expected@, got@),
{
    let mut m = to_owned_string("InResponseTo mismatch: expected ");
    crate::text::push_str(&mut m, expected);
    crate::text::push_str(&mut m, ", got ");
    crate::text::push_str(&mut m, got);
    m
}

/// The status message, or the status code when there is none.
pub fn status_failure_message(s: &Status) -> (r: String)
    ensures
        r@ == status_failure_text(*s),
{
    match &s.status_message {
        Some(m) => to_owned_string(m.as_str()),
        None => to_owned_string(s.status_code.value.as_str()),
    }
}

} // verus!
