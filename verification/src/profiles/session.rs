//! Sessions an Identity Provider tracks for single logout: who received an
//! assertion under which name identifier and session index, and an
//! in-memory store of them keyed by session index.
//!
//! Instants are nanoseconds since the Unix epoch.

use vstd::prelude::*;
use crate::profiles::error::ProfileError;
use crate::protocol::{opt_string_clone, unix_now, NameId, NameIdView};
use crate::text::{opt_string_view, str_eq, strings_clone, strings_view, to_owned_string};

verus! {

/// The SAML 1.1 "unspecified" name identifier format, which an omitted
/// format stands for.
pub const NAMEID_UNSPECIFIED: &'static str = "urn:oasis:names:tc:SAML:1.1:nameid-format:unspecified";

/// A service provider that received an assertion within a session.
#[derive(Debug, Clone)]
pub struct SessionParticipant {
    /// Entity ID of the session participant (SP).
    pub entity_id: String,
    /// The NameID value used for this participant.
    pub name_id_value: String,
    /// The NameID format used for this participant.
    pub name_id_format: Option<String>,
    /// NameID name qualifier.
    pub name_qualifier: Option<String>,
    /// NameID SP name qualifier.
    pub sp_name_qualifier: Option<String>,
    /// SP-provided identifier component of the participant NameID.
    pub sp_provided_id: Option<String>,
    /// The session index(es) associated with this participant.
    pub session_indexes: Vec<String>,
    /// SLO endpoint URL for this participant (from metadata).
    pub slo_url: Option<String>,
    /// SLO binding for this participant.
    pub slo_binding: Option<String>,
    /// When this participant's session expires.
    pub session_not_on_or_after: Option<i128>,
}

/// The content of a session participant.
pub struct ParticipantView {
    /// Entity ID.
    pub entity_id: Seq<char>,
    /// NameID value.
    pub name_id_value: Seq<char>,
    /// NameID format.
    pub name_id_format: Option<Seq<char>>,
    /// NameID name qualifier.
    pub name_qualifier: Option<Seq<char>>,
    /// NameID SP name qualifier.
    pub sp_name_qualifier: Option<Seq<char>>,
    /// SP-provided identifier.
    pub sp_provided_id: Option<Seq<char>>,
    /// Session indexes.
    pub session_indexes: Seq<Seq<char>>,
    /// SLO endpoint URL.
    pub slo_url: Option<Seq<char>>,
    /// SLO binding.
    pub slo_binding: Option<Seq<char>>,
    /// Session expiry.
    pub session_not_on_or_after: Option<i128>,
}

impl View for SessionParticipant {
    type V = ParticipantView;

    open spec fn view(&self) -> ParticipantView {
        ParticipantView {
            entity_id: self.entity_id@,
            name_id_value: self.name_id_value@,
            name_id_format: opt_string_view(self.name_id_format),
            name_qualifier: opt_string_view(self.name_qualifier),
            sp_name_qualifier: opt_string_view(self.sp_name_qualifier),
            sp_provided_id: opt_string_view(self.sp_provided_id),
            session_indexes: strings_view(self.session_indexes@),
            slo_url: opt_string_view(self.slo_url),
            slo_binding: opt_string_view(self.slo_binding),
            session_not_on_or_after: self.session_not_on_or_after,
        }
    }
}

impl SessionParticipant {
    /// A copy with the same content.
    pub fn duplicate(&self) -> (r: SessionParticipant)
        ensures
            r@ == self@,
    {
        SessionParticipant {
            entity_id: to_owned_string(self.entity_id.as_str()),
            name_id_value: to_owned_string(self.name_id_value.as_str()),
            name_id_format: opt_string_clone(&self.name_id_format),
            name_qualifier: opt_string_clone(&self.name_qualifier),
            sp_name_qualifier: opt_string_clone(&self.sp_name_qualifier),
            sp_provided_id: opt_string_clone(&self.sp_provided_id),
            session_indexes: strings_clone(self.session_indexes.as_slice()),
            slo_url: opt_string_clone(&self.slo_url),
            slo_binding: opt_string_clone(&self.slo_binding),
            session_not_on_or_after: self.session_not_on_or_after,
        }
    }
}

/// A SAML session tracked by the IdP.
#[derive(Debug, Clone)]
pub struct SamlSession {
    /// Unique session identifier (the `SessionIndex` of the AuthnStatement).
    pub session_index: String,
    /// The principal's NameID value.
    pub principal_name_id: String,
    /// The principal's NameID format.
    pub principal_name_id_format: Option<String>,
    /// Authentication instant.
    pub authn_instant: i128,
    /// Authentication context class reference.
    pub authn_context_class_ref: Option<String>,
    /// Session expiry.
    pub session_not_on_or_after: Option<i128>,
    /// All SPs that participate in this session.
    pub participants: Vec<SessionParticipant>,
}

/// The content of a session.
pub struct SessionView {
    /// Session index.
    pub session_index: Seq<char>,
    /// Principal NameID value.
    pub principal_name_id: Seq<char>,
    /// Principal NameID format.
    pub principal_name_id_format: Option<Seq<char>>,
    /// Authentication instant.
    pub authn_instant: i128,
    /// Authentication context class reference.
    pub authn_context_class_ref: Option<Seq<char>>,
    /// Session expiry.
    pub session_not_on_or_after: Option<i128>,
    /// Participants, in order.
    pub participants: Seq<ParticipantView>,
}

/// The contents of a sequence of participants.
pub open spec fn participants_view(ps: Seq<SessionParticipant>) -> Seq<ParticipantView> {
    Seq::new(ps.len(), |i: int| ps[i]@)
}

impl View for SamlSession {
    type V = SessionView;

    open spec fn view(&self) -> SessionView {
        SessionView {
            session_index: self.session_index@,
            principal_name_id: self.principal_name_id@,
            principal_name_id_format: opt_string_view(self.principal_name_id_format),
            authn_instant: self.authn_instant,
            authn_context_class_ref: opt_string_view(self.authn_context_class_ref),
            session_not_on_or_after: self.session_not_on_or_after,
            participants: participants_view(self.participants@),
        }
    }
}

/// Appending a participant appends its content.
proof fn lemma_participants_view_push(ps: Seq<SessionParticipant>, p: SessionParticipant)
    ensures
        participants_view(ps.push(p)) == participants_view(ps).push(p@),
{
    assert(participants_view(ps.push(p)) =~= participants_view(ps).push(p@));
}

impl SamlSession {
    /// A copy with the same content.
    pub fn duplicate(&self) -> (r: SamlSession)
        ensures
            r@ == self@,
    {
        let mut participants: Vec<SessionParticipant> = Vec::new();
        let mut i: usize = 0;
        while i < self.participants.len()
            invariant
                0 <= i <= self.participants.len(),
                participants_view(participants@) == participants_view(self.participants@.take(i as int)),
            decreases self.participants.len() - i,
        {
            let p = self.participants[i].duplicate();
            proof {
                lemma_participants_view_push(participants@, p);
                assert(participants_view(self.participants@.take(i + 1)) =~= participants_view(
                    self.participants@.take(i as int),
                ).push(self.participants@[i as int]@));
            }
            participants.push(p);
            i = i + 1;
        }
        assert(self.participants@.take(i as int) =~= self.participants@);
        SamlSession {
            session_index: to_owned_string(self.session_index.as_str()),
            principal_name_id: to_owned_string(self.principal_name_id.as_str()),
            principal_name_id_format: opt_string_clone(&self.principal_name_id_format),
            authn_instant: self.authn_instant,
            authn_context_class_ref: opt_string_clone(&self.authn_context_class_ref),
            session_not_on_or_after: self.session_not_on_or_after,
            participants,
        }
    }
}

// ── Matching a logout request's participant ────────────────────────────────

/// A name identifier format, the omitted one read as "unspecified".
pub open spec fn format_or_unspecified(f: Option<Seq<char>>) -> Seq<char> {
    match f {
        Some(x) => x,
        None => NAMEID_UNSPECIFIED@,
    }
}

/// Whether participant `p` is the requester `requester` under exactly the
/// name identifier `n` (an omitted format matching the unspecified one) and,
/// when session indexes are given, holds one of them.
pub open spec fn participant_is(p: ParticipantView, requester: Seq<char>, n: NameIdView, idxs: Seq<Seq<char>>) -> bool {
    &&& is_named_participant(p, requester, n)
    &&& (idxs.len() == 0 || exists|i: int| 0 <= i < idxs.len() && p.session_indexes.contains(#[trigger] idxs[i]))
}

/// Whether participant `p` is the requester under exactly the name
/// identifier `n`, an omitted format matching the unspecified one.
pub open spec fn is_named_participant(p: ParticipantView, requester: Seq<char>, n: NameIdView) -> bool {
    &&& p.entity_id == requester
    &&& p.name_id_value == n.0
    &&& format_or_unspecified(p.name_id_format) == format_or_unspecified(n.1)
    &&& p.name_qualifier == n.2
    &&& p.sp_name_qualifier == n.3
    &&& p.sp_provided_id == n.4
}

/// Whether some participant of session `v` is that requester.
pub open spec fn session_has_participant(v: SessionView, requester: Seq<char>, n: NameIdView, idxs: Seq<Seq<char>>) -> bool {
    exists|j: int| 0 <= j < v.participants.len() && participant_is(#[trigger] v.participants[j], requester, n, idxs)
}

/// Whether the optional strings are equal.
fn opt_str_eq(a: &Option<String>, b: &Option<String>) -> (r: bool)
    ensures
        r == (opt_string_view(*a) == opt_string_view(*b)),
{
    match (a, b) {
        (Some(x), Some(y)) => str_eq(x.as_str(), y.as_str()),
        (None, None) => true,
        _ => false,
    }
}

/// A format, or the unspecified format when omitted.
fn format_text(f: &Option<String>) -> (r: &str)
    ensures
        r@ == format_or_unspecified(opt_string_view(*f)),
{
    match f {
        Some(x) => x.as_str(),
        None => NAMEID_UNSPECIFIED,
    }
}

/// Whether `needle` is one of `list`.
fn contains_string(list: &Vec<String>, needle: &String) -> (r: bool)
    ensures
        r == strings_view(list@).contains(needle@),
{
    let mut i: usize = 0;
    while i < list.len()
        invariant
            0 <= i <= list.len(),
            forall|k: int| 0 <= k < i ==> list@[k]@ != needle@,
        decreases list.len() - i,
    {
        if str_eq(list[i].as_str(), needle.as_str()) {
            assert(strings_view(list@)[i as int] == needle@);
            return true;
        }
        i = i + 1;
    }
    assert forall|k: int| 0 <= k < strings_view(list@).len() implies strings_view(list@)[k] != needle@ by {
        assert(strings_view(list@)[k] == list@[k]@);
    }
    false
}

/// Whether `participant` is the requester under `name_id` holding one of
/// `session_indexes` (any, when none are given).
pub fn participant_matches(
    participant: &SessionParticipant,
    requester_entity_id: &str,
    name_id: &NameId,
    session_indexes: &[String],
) -> (r: bool)
    ensures
        r == participant_is(participant@, requester_entity_id@, name_id.view_fields(), strings_view(session_indexes@)),
{
    let same_name = str_eq(participant.entity_id.as_str(), requester_entity_id) && str_eq(
        participant.name_id_value.as_str(),
        name_id.value.as_str(),
    ) && str_eq(format_text(&participant.name_id_format), format_text(&name_id.format)) && opt_str_eq(
        &participant.name_qualifier,
        &name_id.name_qualifier,
    ) && opt_str_eq(&participant.sp_name_qualifier, &name_id.sp_name_qualifier) && opt_str_eq(
        &participant.sp_provided_id,
        &name_id.sp_provided_id,
    );
    if !same_name {
        return false;
    }
    if session_indexes.len() == 0 {
        return true;
    }
    let ghost idxs = strings_view(session_indexes@);
    let mut i: usize = 0;
    while i < session_indexes.len()
        invariant
            0 <= i <= session_indexes.len(),
            idxs == strings_view(session_indexes@),
            is_named_participant(participant@, requester_entity_id@, name_id.view_fields()),
            forall|k: int| 0 <= k < i ==> !participant@.session_indexes.contains(#[trigger] idxs[k]),
        decreases session_indexes.len() - i,
    {
        if contains_string(&participant.session_indexes, &session_indexes[i]) {
            assert(idxs[i as int] == session_indexes@[i as int]@);
            assert(participant@.session_indexes.contains(idxs[i as int]));
            return true;
        }
        assert(idxs[i as int] == session_indexes@[i as int]@);
        i = i + 1;
    }
    false
}

// ── The store ──────────────────────────────────────────────────────────────

/// The contents of a sequence of sessions.
pub open spec fn sessions_view(ss: Seq<SamlSession>) -> Seq<SessionView> {
    Seq::new(ss.len(), |i: int| ss[i]@)
}

/// Appending a session appends its content.
proof fn lemma_sessions_view_push(ss: Seq<SamlSession>, s: SamlSession)
    ensures
        sessions_view(ss.push(s)) == sessions_view(ss).push(s@),
{
    assert(sessions_view(ss.push(s)) =~= sessions_view(ss).push(s@));
}

/// No two sessions share a session index.
pub open spec fn unique_indexes(s: Seq<SessionView>) -> bool {
    forall|i: int, j: int| 0 <= i < j < s.len() ==> #[trigger] s[i].session_index != #[trigger] s[j].session_index
}

/// The position of the first session with index `key` at or after `i`.
pub open spec fn index_from(s: Seq<SessionView>, key: Seq<char>, i: int) -> Option<int>
    decreases s.len() - i,
{
    if i < 0 || i >= s.len() {
        None
    } else if s[i].session_index == key {
        Some(i)
    } else {
        index_from(s, key, i + 1)
    }
}

/// The position of the session with index `key`, if any.
pub open spec fn index_of(s: Seq<SessionView>, key: Seq<char>) -> Option<int> {
    index_from(s, key, 0)
}

/// The sessions after storing `v`: it replaces the session with its index,
/// or is added.
pub open spec fn after_create(s: Seq<SessionView>, v: SessionView) -> Seq<SessionView> {
    match index_of(s, v.session_index) {
        Some(k) => s.update(k, v),
        None => s.push(v),
    }
}

/// The sessions of principal `name`, in store order.
pub open spec fn by_principal(s: Seq<SessionView>, name: Seq<char>) -> Seq<SessionView>
    decreases s.len(),
{
    if s.len() == 0 {
        Seq::empty()
    } else {
        let r = by_principal(s.drop_last(), name);
        if s.last().principal_name_id == name {
            r.push(s.last())
        } else {
            r
        }
    }
}

/// The sessions that have (`with` true) or lack (`with` false) the
/// requester as a participant, in store order.
pub open spec fn by_participant(
    s: Seq<SessionView>,
    requester: Seq<char>,
    n: NameIdView,
    idxs: Seq<Seq<char>>,
    with: bool,
) -> Seq<SessionView>
    decreases s.len(),
{
    if s.len() == 0 {
        Seq::empty()
    } else {
        let r = by_participant(s.drop_last(), requester, n, idxs, with);
        if session_has_participant(s.last(), requester, n, idxs) == with {
            r.push(s.last())
        } else {
            r
        }
    }
}

/// A participant matches a logout request only under exactly the request's
/// NameID: same requester entity, same NameID value, the same qualifiers and
/// an equal format (an omitted one read as unspecified); and such a
/// participant matches when no session indexes narrow the request.
pub proof fn lemma_participant_match_is_exact(p: ParticipantView, requester: Seq<char>, n: NameIdView, idxs: Seq<Seq<char>>)
    ensures
        participant_is(p, requester, n, idxs) ==> {
            &&& p.entity_id == requester
            &&& p.name_id_value == n.0
            &&& format_or_unspecified(p.name_id_format) == format_or_unspecified(n.1)
            &&& p.name_qualifier == n.2
            &&& p.sp_name_qualifier == n.3
            &&& p.sp_provided_id == n.4
        },
        ({
            &&& p.entity_id == requester
            &&& p.name_id_value == n.0
            &&& format_or_unspecified(p.name_id_format) == format_or_unspecified(n.1)
            &&& p.name_qualifier == n.2
            &&& p.sp_name_qualifier == n.3
            &&& p.sp_provided_id == n.4
            &&& idxs.len() == 0
        }) ==> participant_is(p, requester, n, idxs),
{
}

/// Whether some participant of session `v` is the entity `requester` under
/// the NameID value `value`.
pub open spec fn names_participant(v: SessionView, requester: Seq<char>, value: Seq<char>) -> bool {
    exists|j: int|
        0 <= j < v.participants.len() && (#[trigger] v.participants[j]).entity_id == requester
            && v.participants[j].name_id_value == value
}

/// Every session found for a logout requester has that requester as a
/// participant under the request's NameID value, and every session of the
/// store with a matching participant is found.
pub proof fn lemma_participant_sessions_name_the_requester(
    s: Seq<SessionView>,
    requester: Seq<char>,
    n: NameIdView,
    idxs: Seq<Seq<char>>,
)
    ensures
        forall|v: SessionView| #[trigger] by_participant(s, requester, n, idxs, true).contains(v) ==> names_participant(
            v,
            requester,
            n.0,
        ),
        forall|v: SessionView|
            s.contains(v) && session_has_participant(v, requester, n, idxs) ==> #[trigger] by_participant(
                s,
                requester,
                n,
                idxs,
                true,
            ).contains(v),
    decreases s.len(),
{
    if s.len() > 0 {
        lemma_participant_sessions_name_the_requester(s.drop_last(), requester, n, idxs);
        let r0 = by_participant(s.drop_last(), requester, n, idxs, true);
        let last = s.last();
        assert forall|v: SessionView| #[trigger] by_participant(s, requester, n, idxs, true).contains(v) implies names_participant(
            v,
            requester,
            n.0,
        ) by {
            if session_has_participant(last, requester, n, idxs) && v == last {
                let j = choose|j: int|
                    0 <= j < last.participants.len() && participant_is(
                        #[trigger] last.participants[j],
                        requester,
                        n,
                        idxs,
                    );
                assert(last.participants[j].entity_id == requester);
            } else if session_has_participant(last, requester, n, idxs) {
                let k = choose|k: int| 0 <= k < r0.push(last).len() && r0.push(last)[k] == v;
                assert(r0.contains(v)) by {
                    assert(r0[k] == v);
                }
            }
        }
        assert forall|v: SessionView|
            s.contains(v) && session_has_participant(v, requester, n, idxs) implies #[trigger] by_participant(
                s,
                requester,
                n,
                idxs,
                true,
            ).contains(v) by {
            let i = choose|i: int| 0 <= i < s.len() && s[i] == v;
            if i < s.len() - 1 {
                assert(s.drop_last()[i] == v);
                assert(s.drop_last().contains(v));
                assert(r0.contains(v));
                let k = choose|k: int| 0 <= k < r0.len() && r0[k] == v;
                if session_has_participant(last, requester, n, idxs) {
                    assert(r0.push(last)[k] == v);
                }
            } else {
                assert(by_participant(s, requester, n, idxs, true) == r0.push(last));
                assert(r0.push(last)[r0.len() as int] == v);
            }
        }
    }
}

/// Whether a session is still valid at `now`.
pub open spec fn unexpired(v: SessionView, now: i128) -> bool {
    match v.session_not_on_or_after {
        Some(expiry) => now < expiry,
        None => true,
    }
}

/// The sessions still valid at `now`, in store order.
pub open spec fn unexpired_at(s: Seq<SessionView>, now: i128) -> Seq<SessionView>
    decreases s.len(),
{
    if s.len() == 0 {
        Seq::empty()
    } else {
        let r = unexpired_at(s.drop_last(), now);
        if unexpired(s.last(), now) {
            r.push(s.last())
        } else {
            r
        }
    }
}

/// The participants other than `entity`, in order.
pub open spec fn participants_except(ps: Seq<ParticipantView>, entity: Seq<char>) -> Seq<ParticipantView>
    decreases ps.len(),
{
    if ps.len() == 0 {
        Seq::empty()
    } else {
        let r = participants_except(ps.drop_last(), entity);
        if ps.last().entity_id != entity {
            r.push(ps.last())
        } else {
            r
        }
    }
}

/// A first match found at or after `i` is the first overall when nothing
/// before `i` matches.
proof fn lemma_index_from_none(s: Seq<SessionView>, key: Seq<char>, i: int)
    requires
        0 <= i,
        index_from(s, key, i) is None,
    ensures
        forall|j: int| i <= j < s.len() ==> s[j].session_index != key,
    decreases s.len() - i,
{
    if i < s.len() {
        lemma_index_from_none(s, key, i + 1);
    }
}

/// What `index_from` finds is a session with the key, and no earlier one
/// at or after `i` has it.
proof fn lemma_index_from_some(s: Seq<SessionView>, key: Seq<char>, i: int)
    requires
        0 <= i,
        index_from(s, key, i) is Some,
    ensures
        i <= index_from(s, key, i)->0 < s.len(),
        s[index_from(s, key, i)->0].session_index == key,
        forall|j: int| i <= j < index_from(s, key, i)->0 ==> s[j].session_index != key,
    decreases s.len() - i,
{
    if i < s.len() && s[i].session_index != key {
        lemma_index_from_some(s, key, i + 1);
    }
}

/// The first position holding the key is what `index_from` finds.
proof fn lemma_index_from_first(s: Seq<SessionView>, key: Seq<char>, i: int, k: int)
    requires
        0 <= i <= k < s.len(),
        s[k].session_index == key,
        forall|j: int| i <= j < k ==> s[j].session_index != key,
    ensures
        index_from(s, key, i) == Some(k),
    decreases k - i,
{
    if i < k {
        lemma_index_from_first(s, key, i + 1, k);
    }
}

/// Storing a session keeps the indexes unique.
proof fn lemma_after_create_unique(s: Seq<SessionView>, v: SessionView)
    requires
        unique_indexes(s),
    ensures
        unique_indexes(after_create(s, v)),
{
    match index_of(s, v.session_index) {
        Some(k) => {
            lemma_index_from_some(s, v.session_index, 0);
        },
        None => {
            lemma_index_from_none(s, v.session_index, 0);
        },
    }
}

/// Reading back what was stored: after storing `v`, the session with its
/// index is `v`.
pub proof fn lemma_get_after_create(s: Seq<SessionView>, v: SessionView)
    requires
        unique_indexes(s),
    ensures
        index_of(after_create(s, v), v.session_index) matches Some(k) && after_create(s, v)[k] == v,
{
    let t = after_create(s, v);
    match index_of(s, v.session_index) {
        Some(k) => {
            lemma_index_from_some(s, v.session_index, 0);
            lemma_index_from_first(t, v.session_index, 0, k);
        },
        None => {
            lemma_index_from_none(s, v.session_index, 0);
            lemma_index_from_first(t, v.session_index, 0, s.len() as int);
        },
    }
}

/// Storing a session leaves the sessions with other indexes as they were.
pub proof fn lemma_create_keeps_others(s: Seq<SessionView>, v: SessionView, key: Seq<char>)
    requires
        unique_indexes(s),
        key != v.session_index,
    ensures
        match index_of(s, key) {
            Some(k) => index_of(after_create(s, v), key) matches Some(k2) && after_create(s, v)[k2] == s[k],
            None => index_of(after_create(s, v), key) is None,
        },
{
    let t = after_create(s, v);
    lemma_after_create_unique(s, v);
    match index_of(s, v.session_index) {
        Some(m) => {
            lemma_index_from_some(s, v.session_index, 0);
            assert(t == s.update(m, v));
        },
        None => {
            assert(t == s.push(v));
        },
    }
    assert(t.len() >= s.len());
    assert forall|j: int| 0 <= j < s.len() && s[j].session_index == key implies t[j] == s[j] by {
        match index_of(s, v.session_index) {
            Some(m) => {
                if j == m {
                    assert(s[m].session_index == v.session_index);
                }
            },
            None => {},
        }
    }
    assert forall|j: int| s.len() <= j < t.len() implies t[j].session_index != key by {
        assert(t == s.push(v));
    }
    match index_of(s, key) {
        Some(k) => {
            lemma_index_from_some(s, key, 0);
            assert forall|j: int| 0 <= j < k implies t[j].session_index != key by {
                match index_of(s, v.session_index) {
                    Some(m) => {
                        if j != m {
                            assert(t[j] == s[j]);
                        }
                    },
                    None => {
                        assert(t[j] == s[j]);
                    },
                }
            }
            lemma_index_from_first(t, key, 0, k);
        },
        None => {
            lemma_index_from_none(s, key, 0);
            if index_of(t, key) is Some {
                lemma_index_from_some(t, key, 0);
                let j = index_of(t, key)->0;
                if j < s.len() {
                    match index_of(s, v.session_index) {
                        Some(m) => {
                            if j != m {
                                assert(t[j] == s[j]);
                            }
                        },
                        None => {
                            assert(t[j] == s[j]);
                        },
                    }
                }
            }
        },
    }
}

/// After a session is destroyed, no session has its index.
pub proof fn lemma_destroy_removes(s: Seq<SessionView>, key: Seq<char>)
    requires
        unique_indexes(s),
        index_of(s, key) is Some,
    ensures
        index_of(s.remove(index_of(s, key)->0), key) is None,
        unique_indexes(s.remove(index_of(s, key)->0)),
{
    lemma_index_from_some(s, key, 0);
    let k = index_of(s, key)->0;
    let t = s.remove(k);
    if index_of(t, key) is Some {
        lemma_index_from_some(t, key, 0);
        let m = index_of(t, key)->0;
        if m < k {
            assert(t[m] == s[m]);
        } else {
            assert(t[m] == s[m + 1]);
        }
    }
}

/// Filtering keeps uniqueness.
proof fn lemma_by_participant_unique(s: Seq<SessionView>, requester: Seq<char>, n: NameIdView, idxs: Seq<Seq<char>>, with: bool)
    requires
        unique_indexes(s),
    ensures
        unique_indexes(by_participant(s, requester, n, idxs, with)),
        forall|i: int| 0 <= i < by_participant(s, requester, n, idxs, with).len() ==> s.contains(
            #[trigger] by_participant(s, requester, n, idxs, with)[i],
        ),
    decreases s.len(),
{
    if s.len() > 0 {
        let p = s.drop_last();
        assert(unique_indexes(p));
        lemma_by_participant_unique(p, requester, n, idxs, with);
        let r = by_participant(p, requester, n, idxs, with);
        assert forall|i: int| 0 <= i < r.len() implies s.contains(r[i]) by {
            let k = choose|k: int| 0 <= k < p.len() && p[k] == r[i];
            assert(s[k] == r[i]);
        }
        if session_has_participant(s.last(), requester, n, idxs) == with {
            assert forall|i: int| 0 <= i < r.len() implies r[i].session_index != s.last().session_index by {
                let k = choose|k: int| 0 <= k < p.len() && p[k] == r[i];
                assert(s[k] == r[i]);
            }
        }
    }
}

/// The participant filter splits the sessions: each one is taken or kept,
/// the taken all have the participant and the kept all lack it.
pub proof fn lemma_participant_partition(s: Seq<SessionView>, requester: Seq<char>, n: NameIdView, idxs: Seq<Seq<char>>)
    ensures
        by_participant(s, requester, n, idxs, true).len() + by_participant(s, requester, n, idxs, false).len() == s.len(),
        forall|i: int| 0 <= i < by_participant(s, requester, n, idxs, true).len() ==> session_has_participant(
            #[trigger] by_participant(s, requester, n, idxs, true)[i],
            requester,
            n,
            idxs,
        ),
        forall|i: int| 0 <= i < by_participant(s, requester, n, idxs, false).len() ==> !session_has_participant(
            #[trigger] by_participant(s, requester, n, idxs, false)[i],
            requester,
            n,
            idxs,
        ),
    decreases s.len(),
{
    if s.len() > 0 {
        lemma_participant_partition(s.drop_last(), requester, n, idxs);
    }
}

/// Every session left by the cleanup at `now` is still valid then.
pub proof fn lemma_cleanup_keeps_only_unexpired(s: Seq<SessionView>, now: i128)
    ensures
        forall|i: int| 0 <= i < unexpired_at(s, now).len() ==> unexpired(#[trigger] unexpired_at(s, now)[i], now),
        unexpired_at(s, now).len() <= s.len(),
    decreases s.len(),
{
    if s.len() > 0 {
        lemma_cleanup_keeps_only_unexpired(s.drop_last(), now);
    }
}

/// Filtering keeps uniqueness (the cleanup).
proof fn lemma_unexpired_unique(s: Seq<SessionView>, now: i128)
    requires
        unique_indexes(s),
    ensures
        unique_indexes(unexpired_at(s, now)),
        forall|i: int| 0 <= i < unexpired_at(s, now).len() ==> s.contains(#[trigger] unexpired_at(s, now)[i]),
    decreases s.len(),
{
    if s.len() > 0 {
        let p = s.drop_last();
        assert(unique_indexes(p));
        lemma_unexpired_unique(p, now);
        let r = unexpired_at(p, now);
        assert forall|i: int| 0 <= i < r.len() implies s.contains(r[i]) by {
            let k = choose|k: int| 0 <= k < p.len() && p[k] == r[i];
            assert(s[k] == r[i]);
        }
        if unexpired(s.last(), now) {
            assert forall|i: int| 0 <= i < r.len() implies r[i].session_index != s.last().session_index by {
                let k = choose|k: int| 0 <= k < p.len() && p[k] == r[i];
                assert(s[k] == r[i]);
            }
        }
    }
}

/// An in-memory session store, keyed by session index.
pub struct InMemorySessionStore {
    sessions: Vec<SamlSession>,
}

impl View for InMemorySessionStore {
    type V = Seq<SessionView>;

    closed spec fn view(&self) -> Seq<SessionView> {
        sessions_view(self.sessions@)
    }
}

impl InMemorySessionStore {
    /// The store's invariant: no two sessions share an index.
    pub closed spec fn wf(&self) -> bool {
        unique_indexes(self@)
    }

    /// An empty store.
    pub fn new() -> (r: Self)
        ensures
            r.wf(),
            r@ == Seq::<SessionView>::empty(),
    {
        let r = InMemorySessionStore { sessions: Vec::new() };
        assert(r@ =~= Seq::<SessionView>::empty());
        r
    }

    /// The number of sessions.
    pub fn len(&self) -> (r: usize)
        ensures
            r == self@.len(),
    {
        self.sessions.len()
    }

    /// Whether the store holds no session.
    pub fn is_empty(&self) -> (r: bool)
        ensures
            r == (self@.len() == 0),
    {
        self.sessions.len() == 0
    }

    /// The position of the session with index `key`.
    fn find(&self, key: &str) -> (r: Option<usize>)
        ensures
            match r {
                Some(k) => index_of(self@, key@) == Some(k as int),
                None => index_of(self@, key@) is None,
            },
            self@.len() == self.sessions.len(),
            r matches Some(k) ==> k < self.sessions.len(),
    {
        let mut i: usize = 0;
        while i < self.sessions.len()
            invariant
                0 <= i <= self.sessions.len(),
                index_of(self@, key@) == index_from(self@, key@, i as int),
            decreases self.sessions.len() - i,
        {
            assert(self@[i as int] == self.sessions@[i as int]@);
            if str_eq(self.sessions[i].session_index.as_str(), key) {
                return Some(i);
            }
            i = i + 1;
        }
        None
    }

    /// Copies of the sessions (`with` true) that have, or (`with` false)
    /// lack, the requester as a participant, in store order.
    fn sessions_by_participant(
        &self,
        requester_entity_id: &str,
        name_id: &NameId,
        session_indexes: &[String],
        with: bool,
    ) -> (r: Vec<SamlSession>)
        ensures
            sessions_view(r@) == by_participant(
                self@,
                requester_entity_id@,
                name_id.view_fields(),
                strings_view(session_indexes@),
                with,
            ),
    {
        let mut out: Vec<SamlSession> = Vec::new();
        let mut i: usize = 0;
        while i < self.sessions.len()
            invariant
                0 <= i <= self.sessions.len(),
                self@.len() == self.sessions.len(),
                sessions_view(out@) == by_participant(
                    self@.take(i as int),
                    requester_entity_id@,
                    name_id.view_fields(),
                    strings_view(session_indexes@),
                    with,
                ),
            decreases self.sessions.len() - i,
        {
            assert(self@.take(i + 1).drop_last() =~= self@.take(i as int));
            assert(self@.take(i + 1).last() == self@[i as int]);
            assert(self@[i as int] == self.sessions@[i as int]@);
            if session_has_matching_participant(&self.sessions[i], requester_entity_id, name_id, session_indexes)
                == with {
                let s = self.sessions[i].duplicate();
                assert(s@ == self@[i as int]);
                proof {
                    lemma_sessions_view_push(out@, s);
                }
                out.push(s);
            }
            i = i + 1;
        }
        assert(self@.take(i as int) =~= self@);
        out
    }

    /// Removes the sessions that have expired at `now`.
    pub fn cleanup_expired_at(&mut self, now: i128)
        ensures
            old(self).wf() ==> final(self).wf(),
            final(self)@ == unexpired_at(old(self)@, now),
    {
        let mut kept: Vec<SamlSession> = Vec::new();
        let mut i: usize = 0;
        while i < self.sessions.len()
            invariant
                0 <= i <= self.sessions.len(),
                sessions_view(kept@) == unexpired_at(self@.take(i as int), now),
            decreases self.sessions.len() - i,
        {
            assert(self@.take(i + 1).drop_last() =~= self@.take(i as int));
            assert(self@.take(i + 1).last() == self.sessions@[i as int]@);
            let keep = match self.sessions[i].session_not_on_or_after {
                Some(expiry) => now < expiry,
                None => true,
            };
            if keep {
                let s = self.sessions[i].duplicate();
                proof {
                    lemma_sessions_view_push(kept@, s);
                }
                kept.push(s);
            }
            i = i + 1;
        }
        assert(self@.take(i as int) =~= self@);
        proof {
            if self.wf() {
                lemma_unexpired_unique(self@, now);
            }
        }
        self.sessions = kept;
    }
}

impl Default for InMemorySessionStore {
    /// An empty store.
    fn default() -> (r: Self)
        ensures
            r.wf(),
            r@ == Seq::<SessionView>::empty(),
    {
        InMemorySessionStore::new()
    }
}

/// Whether session `s` has the requester as a participant under exactly
/// `name_id` and, when given, one of `session_indexes`.
pub fn session_has_matching_participant(
    s: &SamlSession,
    requester_entity_id: &str,
    name_id: &NameId,
    session_indexes: &[String],
) -> (r: bool)
    ensures
        r == session_has_participant(s@, requester_entity_id@, name_id.view_fields(), strings_view(session_indexes@)),
{
    let mut j: usize = 0;
    while j < s.participants.len()
        invariant
            0 <= j <= s.participants.len(),
            forall|k: int| 0 <= k < j ==> !participant_is(
                #[trigger] s@.participants[k],
                requester_entity_id@,
                name_id.view_fields(),
                strings_view(session_indexes@),
            ),
        decreases s.participants.len() - j,
    {
        assert(s@.participants[j as int] == s.participants@[j as int]@);
        if participant_matches(&s.participants[j], requester_entity_id, name_id, session_indexes) {
            return true;
        }
        j = j + 1;
    }
    false
}

/// Storage of the sessions an Identity Provider tracks, for it to record
/// assertions issued and to find who takes part in a session at logout.
/// Stores of one's own implement it; `InMemorySessionStore` is one.
pub trait SessionStore: Send + Sync {
    /// Stores a session and returns its index.
    fn create_session(&mut self, session: SamlSession) -> (r: String);

    /// The session with index `session_index`.
    fn get_session(&self, session_index: &str) -> (r: Option<SamlSession>);

    /// The sessions of the principal `name_id`.
    fn get_sessions_by_name_id(&self, name_id: &str) -> (r: Vec<SamlSession>);

    /// The sessions in which the requester takes part under exactly
    /// `name_id` and, when given, one of `session_indexes`.  By default the
    /// sessions `get_sessions_by_name_id` reports for the NameID's value,
    /// kept in order where one of their participants matches.
    fn get_sessions_for_participant(
        &self,
        requester_entity_id: &str,
        name_id: &NameId,
        session_indexes: &[String],
    ) -> (r: Vec<SamlSession>)
        default_ensures
            exists|name: &str, c: Vec<SamlSession>|
                {
                    &&& name@ == name_id.value@
                    &&& call_ensures(Self::get_sessions_by_name_id, (self, name), c)
                    &&& sessions_view(r@) == by_participant(
                        sessions_view(c@),
                        requester_entity_id@,
                        name_id.view_fields(),
                        strings_view(session_indexes@),
                        true,
                    )
                },
    {
        let candidates = self.get_sessions_by_name_id(name_id.value.as_str());
        let ghost cs = sessions_view(candidates@);
        let mut out: Vec<SamlSession> = Vec::new();
        let mut i: usize = 0;
        while i < candidates.len()
            invariant
                0 <= i <= candidates.len(),
                cs == sessions_view(candidates@),
                sessions_view(out@) == by_participant(
                    cs.take(i as int),
                    requester_entity_id@,
                    name_id.view_fields(),
                    strings_view(session_indexes@),
                    true,
                ),
            decreases candidates.len() - i,
        {
            assert(cs.take(i + 1).drop_last() =~= cs.take(i as int));
            assert(cs.take(i + 1).last() == candidates@[i as int]@);
            if session_has_matching_participant(&candidates[i], requester_entity_id, name_id, session_indexes) {
                let s = candidates[i].duplicate();
                proof {
                    lemma_sessions_view_push(out@, s);
                }
                out.push(s);
            }
            i = i + 1;
        }
        assert(cs.take(i as int) =~= cs);
        out
    }

    /// Removes and returns, in one step, the sessions in which the
    /// requester takes part under exactly `name_id` and, when given, one of
    /// `session_indexes`.  A store that cannot recheck the match on the
    /// records it removes keeps the default, which refuses.
    fn take_sessions_for_participant(
        &mut self,
        requester_entity_id: &str,
        name_id: &NameId,
        session_indexes: &[String],
    ) -> (r: Result<Vec<SamlSession>, ProfileError>)
        default_ensures
            r matches Err(ProfileError::Other(m)) && m@ == non_atomic_store_text(),
    {
        Err(ProfileError::Other(to_owned_string(NON_ATOMIC_STORE)))
    }

    /// Adds a participant to the session with index `session_index`.
    fn add_participant(&mut self, session_index: &str, participant: SessionParticipant) -> (r: bool);

    /// Removes the participants with entity ID `entity_id` from the session
    /// with index `session_index`.
    fn remove_participant(&mut self, session_index: &str, entity_id: &str) -> (r: bool);

    /// Destroys the session with index `session_index`.
    fn destroy_session(&mut self, session_index: &str) -> (r: bool);

    /// Removes the sessions that have expired.
    fn cleanup_expired(&mut self);
}

/// What a store without atomic participant-bound removal answers.
pub const NON_ATOMIC_STORE: &'static str = "session store does not implement atomic participant-bound removal";

/// The text of `NON_ATOMIC_STORE`.
pub open spec fn non_atomic_store_text() -> Seq<char> {
    NON_ATOMIC_STORE@
}

impl SessionStore for InMemorySessionStore {
    /// Stores a session under its index, replacing any session with that
    /// index, and returns the index.
    fn create_session(&mut self, session: SamlSession) -> (r: String)
        ensures
            old(self).wf() ==> final(self).wf(),
            r@ == session.session_index@,
            final(self)@ == after_create(old(self)@, session@),
    {
        let index = to_owned_string(session.session_index.as_str());
        proof {
            if self.wf() {
                lemma_after_create_unique(self@, session@);
            }
        }
        match self.find(index.as_str()) {
            Some(k) => {
                let ghost before = self.sessions@;
                self.sessions.set(k, session);
                assert(sessions_view(self.sessions@) =~= sessions_view(before).update(k as int, session@));
            },
            None => {
                proof {
                    lemma_sessions_view_push(self.sessions@, session);
                }
                self.sessions.push(session);
            },
        }
        index
    }

    /// A copy of the session with index `session_index`.
    fn get_session(&self, session_index: &str) -> (r: Option<SamlSession>)
        ensures
            match index_of(self@, session_index@) {
                Some(k) => r matches Some(s) && s@ == self@[k],
                None => r is None,
            },
    {
        match self.find(session_index) {
            Some(k) => Some(self.sessions[k].duplicate()),
            None => None,
        }
    }

    /// Copies of the sessions of the principal `name_id`, in store order.
    fn get_sessions_by_name_id(&self, name_id: &str) -> (r: Vec<SamlSession>)
        ensures
            sessions_view(r@) == by_principal(self@, name_id@),
    {
        let mut out: Vec<SamlSession> = Vec::new();
        let mut i: usize = 0;
        while i < self.sessions.len()
            invariant
                0 <= i <= self.sessions.len(),
                sessions_view(out@) == by_principal(self@.take(i as int), name_id@),
            decreases self.sessions.len() - i,
        {
            assert(self@.take(i + 1).drop_last() =~= self@.take(i as int));
            assert(self@.take(i + 1).last() == self.sessions@[i as int]@);
            if str_eq(self.sessions[i].principal_name_id.as_str(), name_id) {
                let s = self.sessions[i].duplicate();
                proof {
                    lemma_sessions_view_push(out@, s);
                }
                out.push(s);
            }
            i = i + 1;
        }
        assert(self@.take(i as int) =~= self@);
        out
    }

    /// Copies of the sessions, of any principal, in which the requester
    /// takes part under exactly `name_id` and, when given, one of
    /// `session_indexes`, in store order.
    fn get_sessions_for_participant(
        &self,
        requester_entity_id: &str,
        name_id: &NameId,
        session_indexes: &[String],
    ) -> (r: Vec<SamlSession>)
        ensures
            sessions_view(r@) == by_participant(
                self@,
                requester_entity_id@,
                name_id.view_fields(),
                strings_view(session_indexes@),
                true,
            ),
    {
        self.sessions_by_participant(requester_entity_id, name_id, session_indexes, true)
    }

    /// Removes and returns, in one step, the sessions in which the
    /// requester takes part under exactly `name_id` and, when given, one of
    /// `session_indexes`; the match is checked on the records removed.
    fn take_sessions_for_participant(
        &mut self,
        requester_entity_id: &str,
        name_id: &NameId,
        session_indexes: &[String],
    ) -> (r: Result<Vec<SamlSession>, ProfileError>)
        ensures
            old(self).wf() ==> final(self).wf(),
            r matches Ok(taken) && sessions_view(taken@) == by_participant(
                old(self)@,
                requester_entity_id@,
                name_id.view_fields(),
                strings_view(session_indexes@),
                true,
            ),
            final(self)@ == by_participant(
                old(self)@,
                requester_entity_id@,
                name_id.view_fields(),
                strings_view(session_indexes@),
                false,
            ),
    {
        let taken = self.sessions_by_participant(requester_entity_id, name_id, session_indexes, true);
        let kept = self.sessions_by_participant(requester_entity_id, name_id, session_indexes, false);
        proof {
            if self.wf() {
                lemma_by_participant_unique(
                    self@,
                    requester_entity_id@,
                    name_id.view_fields(),
                    strings_view(session_indexes@),
                    false,
                );
            }
        }
        self.sessions = kept;
        Ok(taken)
    }

    /// Adds a participant to the session with index `session_index`;
    /// `false` when there is none.
    fn add_participant(&mut self, session_index: &str, participant: SessionParticipant) -> (r: bool)
        ensures
            old(self).wf() ==> final(self).wf(),
            r == index_of(old(self)@, session_index@) is Some,
            match index_of(old(self)@, session_index@) {
                Some(k) => final(self)@ == old(self)@.update(
                    k,
                    SessionView { participants: old(self)@[k].participants.push(participant@), ..old(self)@[k] },
                ),
                None => final(self)@ == old(self)@,
            },
    {
        match self.find(session_index) {
            Some(k) => {
                let ghost before = self.sessions@;
                let mut s = self.sessions.remove(k);
                proof {
                    lemma_participants_view_push(s.participants@, participant);
                }
                s.participants.push(participant);
                self.sessions.insert(k, s);
                assert(self.sessions@ =~= before.update(k as int, s));
                assert(sessions_view(self.sessions@) =~= sessions_view(before).update(k as int, s@));
                true
            },
            None => false,
        }
    }

    /// Removes every participant with entity ID `entity_id` from the
    /// session with index `session_index`; `true` when one was removed.
    fn remove_participant(&mut self, session_index: &str, entity_id: &str) -> (r: bool)
        ensures
            old(self).wf() ==> final(self).wf(),
            match index_of(old(self)@, session_index@) {
                Some(k) => {
                    let kept = participants_except(old(self)@[k].participants, entity_id@);
                    &&& final(self)@ == old(self)@.update(k, SessionView { participants: kept, ..old(self)@[k] })
                    &&& r == (kept.len() < old(self)@[k].participants.len())
                },
                None => !r && final(self)@ == old(self)@,
            },
    {
        match self.find(session_index) {
            Some(k) => {
                let ghost before = self.sessions@;
                let mut s = self.sessions.remove(k);
                let ghost ps = s@.participants;
                let mut kept: Vec<SessionParticipant> = Vec::new();
                let mut i: usize = 0;
                while i < s.participants.len()
                    invariant
                        0 <= i <= s.participants.len(),
                        ps == participants_view(s.participants@),
                        participants_view(kept@) == participants_except(ps.take(i as int), entity_id@),
                    decreases s.participants.len() - i,
                {
                    assert(ps.take(i + 1).drop_last() =~= ps.take(i as int));
                    assert(ps.take(i + 1).last() == s.participants@[i as int]@);
                    if !str_eq(s.participants[i].entity_id.as_str(), entity_id) {
                        let p = s.participants[i].duplicate();
                        proof {
                            lemma_participants_view_push(kept@, p);
                        }
                        kept.push(p);
                    }
                    i = i + 1;
                }
                assert(ps.take(i as int) =~= ps);
                proof {
                    lemma_participants_except_len(ps, entity_id@);
                }
                let removed = kept.len() < s.participants.len();
                s.participants = kept;
                self.sessions.insert(k, s);
                assert(self.sessions@ =~= before.update(k as int, s));
                assert(sessions_view(self.sessions@) =~= sessions_view(before).update(k as int, s@));
                removed
            },
            None => false,
        }
    }

    /// Destroys the session with index `session_index`; `false` when there
    /// is none.
    fn destroy_session(&mut self, session_index: &str) -> (r: bool)
        ensures
            old(self).wf() ==> final(self).wf(),
            r == index_of(old(self)@, session_index@) is Some,
            match index_of(old(self)@, session_index@) {
                Some(k) => final(self)@ == old(self)@.remove(k),
                None => final(self)@ == old(self)@,
            },
    {
        match self.find(session_index) {
            Some(k) => {
                let ghost before = self.sessions@;
                proof {
                    if self.wf() {
                        lemma_destroy_removes(self@, session_index@);
                    }
                }
                let _gone = self.sessions.remove(k);
                assert(sessions_view(self.sessions@) =~= sessions_view(before).remove(k as int));
                true
            },
            None => false,
        }
    }

    /// Removes the sessions that have expired by the system clock's current
    /// time.
    fn cleanup_expired(&mut self)
        ensures
            old(self).wf() ==> final(self).wf(),
            exists|now: i128| final(self)@ == unexpired_at(old(self)@, now),
    {
        let now = unix_now();
        self.cleanup_expired_at(now);
    }
}

/// Dropping participants never adds any.
proof fn lemma_participants_except_len(ps: Seq<ParticipantView>, entity: Seq<char>)
    ensures
        participants_except(ps, entity).len() <= ps.len(),
    decreases ps.len(),
{
    if ps.len() > 0 {
        lemma_participants_except_len(ps.drop_last(), entity);
    }
}

} // verus!
