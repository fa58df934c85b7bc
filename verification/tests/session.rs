use gamlastan::profiles::error::ProfileError;
use gamlastan::profiles::session::{
    InMemorySessionStore, SamlSession, SessionParticipant, SessionStore, NAMEID_UNSPECIFIED,
};
use gamlastan::protocol::NameId;

const NAMEID_EMAIL: &str = "urn:oasis:names:tc:SAML:1.1:nameid-format:emailAddress";

fn now() -> i128 {
    let t = chrono::Utc::now();
    secs(t.timestamp()) + t.timestamp_subsec_nanos() as i128
}

fn make_participant(entity_id: &str) -> SessionParticipant {
    SessionParticipant {
        entity_id: entity_id.to_string(),
        name_id_value: "user@example.com".to_string(),
        name_id_format: None,
        name_qualifier: None,
        sp_name_qualifier: None,
        sp_provided_id: None,
        session_indexes: vec!["_idx1".to_string()],
        slo_url: Some(format!("https://{entity_id}/slo")),
        slo_binding: Some("urn:oasis:names:tc:SAML:2.0:bindings:HTTP-Redirect".to_string()),
        session_not_on_or_after: None,
    }
}

fn make_session(index: &str) -> SamlSession {
    SamlSession {
        session_index: index.to_string(),
        principal_name_id: "user@example.com".to_string(),
        principal_name_id_format: None,
        authn_instant: now(),
        authn_context_class_ref: None,
        session_not_on_or_after: Some(now() + secs(8 * 3600)),
        participants: vec![],
    }
}

fn user_name_id() -> NameId {
    NameId {
        value: "user@example.com".to_string(),
        format: None,
        name_qualifier: None,
        sp_name_qualifier: None,
        sp_provided_id: None,
    }
}

#[test]
fn test_create_and_get_session() {
    let mut store = InMemorySessionStore::new();
    let session = make_session("_sess1");
    let index = store.create_session(session);
    assert_eq!(index, "_sess1");

    assert_eq!(store.len(), 1);
    let retrieved = store.get_session("_sess1").unwrap();
    assert_eq!(retrieved.session_index, "_sess1");
    assert_eq!(retrieved.principal_name_id, "user@example.com");
}

#[test]
fn test_create_session_replaces_same_index() {
    let mut store = InMemorySessionStore::new();
    store.create_session(make_session("_sess1"));
    let mut replacement = make_session("_sess1");
    replacement.principal_name_id = "other@example.com".to_string();
    store.create_session(replacement);
    assert_eq!(store.len(), 1);
    assert_eq!(store.get_session("_sess1").unwrap().principal_name_id, "other@example.com");
}

#[test]
fn test_get_sessions_by_name_id() {
    let mut store = InMemorySessionStore::new();
    store.create_session(make_session("_s1"));
    store.create_session(make_session("_s2"));

    let mut other = make_session("_s3");
    other.principal_name_id = "other@example.com".to_string();
    store.create_session(other);

    let sessions = store.get_sessions_by_name_id("user@example.com");
    assert_eq!(sessions.len(), 2);
}

#[test]
fn participant_lookup_binds_requester_name_id_and_session_index() {
    let mut store = InMemorySessionStore::new();
    let mut session = make_session("_s1");
    session.principal_name_id = "internal-principal".to_string();
    session.participants = vec![make_participant("https://sp.example.com")];
    store.create_session(session);
    let name_id = user_name_id();

    assert_eq!(
        store.get_sessions_for_participant("https://sp.example.com", &name_id, &["_idx1".to_string()]).len(),
        1
    );
    assert!(store
        .get_sessions_for_participant("https://other-sp.example.com", &name_id, &["_idx1".to_string()])
        .is_empty());
    assert!(store
        .get_sessions_for_participant("https://sp.example.com", &name_id, &["_different".to_string()])
        .is_empty());
}

#[test]
fn participant_lookup_normalizes_omitted_unspecified_name_id_format() {
    let mut store = InMemorySessionStore::new();
    let mut session = make_session("_s1");
    session.participants = vec![make_participant("https://sp.example.com")];
    store.create_session(session);

    let explicit_unspecified = NameId {
        value: "user@example.com".to_string(),
        format: Some(NAMEID_UNSPECIFIED.to_string()),
        name_qualifier: None,
        sp_name_qualifier: None,
        sp_provided_id: None,
    };
    assert_eq!(store.get_sessions_for_participant("https://sp.example.com", &explicit_unspecified, &[]).len(), 1);

    let mut explicit_participant = make_participant("https://sp.example.com");
    explicit_participant.name_id_format = Some(NAMEID_UNSPECIFIED.to_string());
    let mut reverse_session = make_session("_s2");
    reverse_session.participants = vec![explicit_participant];
    store.create_session(reverse_session);
    let omitted = NameId { format: None, ..explicit_unspecified.clone() };
    assert_eq!(store.get_sessions_for_participant("https://sp.example.com", &omitted, &[]).len(), 2);

    let different_format = NameId { format: Some(NAMEID_EMAIL.to_string()), ..omitted };
    assert!(store.get_sessions_for_participant("https://sp.example.com", &different_format, &[]).is_empty());
}

#[test]
fn participant_take_atomically_returns_and_removes_the_live_record() {
    let mut store = InMemorySessionStore::new();
    let mut session = make_session("_s1");
    session.principal_name_id = "internal-principal".to_string();
    session.participants = vec![make_participant("https://sp.example.com")];
    store.create_session(session);
    let name_id = user_name_id();

    let removed =
        store.take_sessions_for_participant("https://sp.example.com", &name_id, &["_idx1".to_string()]).unwrap();

    assert_eq!(removed.len(), 1);
    assert_eq!(removed[0].session_index, "_s1");
    assert_eq!(removed[0].principal_name_id, "internal-principal");
    assert!(store.get_session("_s1").is_none());
}

#[test]
fn participant_take_rechecks_replaced_session_before_removal() {
    let mut store = InMemorySessionStore::new();
    let mut original = make_session("_s1");
    original.participants = vec![make_participant("https://sp.example.com")];
    store.create_session(original);
    let name_id = user_name_id();

    let stale_snapshot =
        store.get_sessions_for_participant("https://sp.example.com", &name_id, &["_idx1".to_string()]);
    assert_eq!(stale_snapshot.len(), 1);

    let mut replacement = make_session("_s1");
    replacement.principal_name_id = "replacement-principal".to_string();
    replacement.participants = vec![make_participant("https://other-sp.example.com")];
    store.create_session(replacement);

    let removed =
        store.take_sessions_for_participant("https://sp.example.com", &name_id, &["_idx1".to_string()]).unwrap();

    assert!(removed.is_empty());
    assert_eq!(store.get_session("_s1").unwrap().principal_name_id, "replacement-principal");
}

#[test]
fn test_add_and_remove_participant() {
    let mut store = InMemorySessionStore::new();
    store.create_session(make_session("_sess1"));

    assert!(store.add_participant("_sess1", make_participant("sp1.example.com")));
    assert!(store.add_participant("_sess1", make_participant("sp2.example.com")));

    let session = store.get_session("_sess1").unwrap();
    assert_eq!(session.participants.len(), 2);

    assert!(store.remove_participant("_sess1", "sp1.example.com"));
    let session = store.get_session("_sess1").unwrap();
    assert_eq!(session.participants.len(), 1);
    assert_eq!(session.participants[0].entity_id, "sp2.example.com");
    assert!(!store.remove_participant("_sess1", "sp1.example.com"));
}

#[test]
fn test_destroy_session() {
    let mut store = InMemorySessionStore::new();
    store.create_session(make_session("_sess1"));
    assert_eq!(store.len(), 1);

    assert!(store.destroy_session("_sess1"));
    assert_eq!(store.len(), 0);
    assert!(store.is_empty());
    assert!(!store.destroy_session("_sess1"));
}

#[test]
fn test_cleanup_expired() {
    let mut store = InMemorySessionStore::new();

    let mut expired = make_session("_expired");
    expired.session_not_on_or_after = Some(now() - secs(3600));
    store.create_session(expired);

    store.create_session(make_session("_active"));
    assert_eq!(store.len(), 2);

    store.cleanup_expired();
    assert_eq!(store.len(), 1);
    assert!(store.get_session("_active").is_some());
    assert!(store.get_session("_expired").is_none());
}

#[test]
fn test_cleanup_expired_at_boundary() {
    let mut store = InMemorySessionStore::new();
    let mut at_limit = make_session("_limit");
    at_limit.session_not_on_or_after = Some(secs(1_000));
    store.create_session(at_limit);
    let mut open = make_session("_open");
    open.session_not_on_or_after = None;
    store.create_session(open);
    store.cleanup_expired_at(secs(1_000) - 1);
    assert_eq!(store.len(), 2);
    store.cleanup_expired_at(secs(1_000));
    assert_eq!(store.len(), 1);
    assert!(store.get_session("_open").is_some());
}

#[test]
fn test_nonexistent_session() {
    let mut store = InMemorySessionStore::new();
    assert!(store.get_session("_none").is_none());
    assert!(!store.add_participant("_none", make_participant("sp")));
    assert!(!store.remove_participant("_none", "sp"));
}

struct LegacySessionStore;

impl SessionStore for LegacySessionStore {
    fn create_session(&mut self, session: SamlSession) -> String {
        session.session_index
    }

    fn get_session(&self, _session_index: &str) -> Option<SamlSession> {
        None
    }

    fn get_sessions_by_name_id(&self, _name_id: &str) -> Vec<SamlSession> {
        Vec::new()
    }

    fn add_participant(&mut self, _session_index: &str, _participant: SessionParticipant) -> bool {
        false
    }

    fn remove_participant(&mut self, _session_index: &str, _entity_id: &str) -> bool {
        false
    }

    fn destroy_session(&mut self, _session_index: &str) -> bool {
        false
    }

    fn cleanup_expired(&mut self) {}
}

#[test]
fn legacy_session_store_fails_closed_for_atomic_participant_removal() {
    let name_id = NameId {
        value: "user@example.com".to_string(),
        format: None,
        name_qualifier: None,
        sp_name_qualifier: None,
        sp_provided_id: None,
    };

    let error = LegacySessionStore
        .take_sessions_for_participant("https://sp.example.com", &name_id, &[])
        .unwrap_err();
    assert!(error
        .message()
        .contains("does not implement atomic participant-bound removal"));
    assert!(matches!(error, ProfileError::Other(_)));
}

/// A store that keeps only what it is given and relies on the default
/// participant lookup.
struct PrincipalOnlyStore {
    sessions: Vec<SamlSession>,
}

impl SessionStore for PrincipalOnlyStore {
    fn create_session(&mut self, session: SamlSession) -> String {
        let index = session.session_index.clone();
        self.sessions.push(session);
        index
    }

    fn get_session(&self, session_index: &str) -> Option<SamlSession> {
        self.sessions.iter().find(|s| s.session_index == session_index).cloned()
    }

    fn get_sessions_by_name_id(&self, name_id: &str) -> Vec<SamlSession> {
        self.sessions.iter().filter(|s| s.principal_name_id == name_id).cloned().collect()
    }

    fn add_participant(&mut self, _session_index: &str, _participant: SessionParticipant) -> bool {
        false
    }

    fn remove_participant(&mut self, _session_index: &str, _entity_id: &str) -> bool {
        false
    }

    fn destroy_session(&mut self, _session_index: &str) -> bool {
        false
    }

    fn cleanup_expired(&mut self) {}
}

#[test]
fn default_participant_lookup_filters_the_principal_sessions() {
    let mut store = PrincipalOnlyStore { sessions: Vec::new() };
    let mut with_sp = make_session("_s1");
    with_sp.participants.push(make_participant("https://sp.example.com"));
    store.create_session(with_sp);
    store.create_session(make_session("_s2"));

    let found = store.get_sessions_for_participant("https://sp.example.com", &user_name_id(), &[]);
    assert_eq!(found.len(), 1);
    assert_eq!(found[0].session_index, "_s1");
    assert!(store
        .get_sessions_for_participant("https://other.example.com", &user_name_id(), &[])
        .is_empty());
    assert!(store.take_sessions_for_participant("https://sp.example.com", &user_name_id(), &[]).is_err());
}

#[test]
fn default_store_is_empty() {
    let mut store = InMemorySessionStore::default();
    assert!(store.is_empty());
    store.create_session(make_session("_d1"));
    assert_eq!(store.len(), 1);
}

fn secs(s: i64) -> i128 {
    s as i128 * 1_000_000_000
}
