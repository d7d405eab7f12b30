use std::collections::HashMap;

use async_session::{MemoryStore, Session, SessionStore};

use axum_session_cookie::cookie::{CookieExpiry, SameSitePolicy, SessionCookie};
use axum_session_cookie::layer::{Reaction, SessionLayer, StoreOutcome};
use axum_session_cookie::session::SessionState;
use axum_session_cookie::signer::verify;

const NOW: u64 = 1_700_000_000;

/// A store that keeps records in memory and numbers the identifiers it issues.
#[derive(Default)]
struct TestStore {
    records: HashMap<String, (Vec<(String, String)>, Option<u64>)>,
    issued: u32,
}

impl TestStore {
    fn load(&self, id: &str) -> Option<SessionState> {
        self.records
            .get(id)
            .map(|(entries, expiry)| SessionState::from_record(id.to_string(), entries.clone(), *expiry))
    }

    fn store(&mut self, session: &SessionState) -> Option<String> {
        match session.id() {
            Some(id) => {
                self.records
                    .insert(id.clone(), (session.entries().clone(), session.expiry()));
                None
            }
            None => {
                self.issued += 1;
                let id = format!("id{}", self.issued);
                self.records
                    .insert(id.clone(), (session.entries().clone(), session.expiry()));
                Some(id)
            }
        }
    }

    fn destroy(&mut self, session: &SessionState) {
        if let Some(id) = session.id() {
            self.records.remove(id);
        }
    }
}

fn secret() -> Vec<u8> {
    (0u8..64).collect()
}

fn header_of(cookie: &SessionCookie) -> String {
    format!("{}={}", cookie.name, cookie.value)
}

/// One request through the middleware's steps; returns whether the status
/// became an internal error and the `Set-Cookie` directive, if any.
fn run(
    layer: &SessionLayer<()>,
    store: &mut TestStore,
    cookie_header: Option<&str>,
    handler: impl FnOnce(&mut SessionState),
) -> (bool, Option<SessionCookie>) {
    let presented = layer.session_id_from_header(cookie_header);
    let loaded = presented.as_deref().and_then(|id| store.load(id));
    let mut session = layer.load_or_create(loaded, NOW);
    handler(&mut session);
    let secure = layer.effective_secure(false);
    match layer.plan_reaction(&session) {
        Reaction::Destroy => {
            store.destroy(&session);
            let update = layer.after_destroy(secure, true);
            (update.internal_error, update.set_cookie)
        }
        Reaction::Persist { regenerate } => {
            if regenerate {
                store.destroy(&session);
                session.inner_regenerate();
            }
            let outcome = match store.store(&session) {
                Some(id) => StoreOutcome::Stored(id),
                None => StoreOutcome::NoIdentifier,
            };
            let update = layer.after_store(secure, outcome, NOW);
            (update.internal_error, update.set_cookie)
        }
        Reaction::Leave => (false, None),
    }
}

#[test]
fn new_layer_has_the_documented_defaults() {
    let layer = SessionLayer::new((), &secret());
    assert_eq!(layer.cookie_name(), "axum_sid");
    assert_eq!(layer.session_ttl(), Some(86400));
    assert!(!layer.effective_secure(false));
    assert!(layer.effective_secure(true));
    let layer = layer.with_secure(false);
    assert!(!layer.effective_secure(true));
}

#[test]
fn built_cookie_carries_the_configuration() {
    let layer = SessionLayer::new((), &secret())
        .with_cookie_name("sid")
        .with_cookie_path("/app")
        .with_cookie_domain("example.com")
        .with_same_site_policy(SameSitePolicy::Lax)
        .with_session_ttl(Some(60));
    let cookie = layer.build_cookie(true, "id1".to_string(), NOW);
    assert_eq!(cookie.name, "sid");
    assert_eq!(cookie.value, "3RHjUNjGU2mdAvDZ0mnkBys3R9ASU3lUuL+lQAaufAY=id1");
    assert!(cookie.http_only);
    assert!(cookie.secure);
    assert_eq!(cookie.same_site, SameSitePolicy::Lax);
    assert_eq!(cookie.path.as_deref(), Some("/app"));
    assert_eq!(cookie.domain.as_deref(), Some("example.com"));
    assert_eq!(cookie.expiry, CookieExpiry::At(NOW + 60));
    let layer = layer.with_session_ttl(None);
    assert_eq!(layer.build_cookie(false, "id1".to_string(), NOW).expiry, CookieExpiry::OnClose);
}

#[test]
fn removal_cookie_is_signed_and_expired() {
    let layer = SessionLayer::new((), &secret());
    let cookie = layer.build_removal_cookie(false);
    assert_eq!(cookie.name, "axum_sid");
    assert_eq!(cookie.value, "04tCCW2A9F+Ca0Sp1WB95ySWpBXT9KGoyI47udqNwcs=");
    assert_eq!(cookie.expiry, CookieExpiry::Removal);
    assert_eq!(cookie.path, None);
    assert_eq!(verify(&secret()[..32], &cookie.value), Ok(String::new()));
}

#[test]
fn header_scan_skips_foreign_and_malformed_pieces() {
    let layer = SessionLayer::new((), &secret());
    let good = layer.build_cookie(false, "id7".to_string(), NOW);
    let forged = format!("axum_sid={}", "A".repeat(44) + "id9");
    let header = format!("other=1; junk;  {} ; {}", header_of(&good), forged);
    assert_eq!(layer.session_id_from_header(Some(&header)), Some("id7".to_string()));
    assert_eq!(layer.session_id_from_header(Some("other=1; axum_sid=short")), None);
    assert_eq!(layer.session_id_from_header(None), None);
}

#[test]
fn header_scan_stops_at_the_first_session_cookie() {
    let layer = SessionLayer::new((), &secret());
    let good = layer.build_cookie(false, "id7".to_string(), NOW);
    let forged = format!("axum_sid={}", "A".repeat(44) + "id9");
    let header = format!("other=1; {}; {}", forged, header_of(&good));
    assert_eq!(layer.session_id_from_header(Some(&header)), None);
}

#[test]
fn expired_record_is_stored_afresh_without_save_unchanged() {
    let layer = SessionLayer::new((), &secret()).with_save_unchanged(false);
    let mut store = TestStore::default();
    let mut old = SessionState::fresh();
    old.set_expiry(NOW - 1);
    let id = store.store(&old).unwrap();
    let header = header_of(&layer.build_cookie(false, id.clone(), NOW));
    let (error, cookie) = run(&layer, &mut store, Some(&header), |_| {});
    assert!(!error);
    let issued = verify(&secret()[..32], &cookie.expect("a cookie for the fresh session").value).unwrap();
    assert_ne!(issued, id);
}

#[test]
fn new_visitor_gets_a_signed_cookie() {
    let layer = SessionLayer::new((), &secret());
    let mut store = TestStore::default();
    let (error, cookie) = run(&layer, &mut store, None, |_| {});
    assert!(!error);
    let cookie = cookie.expect("a cookie for a new visitor");
    assert_eq!(cookie.name, "axum_sid");
    assert_eq!(verify(&secret()[..32], &cookie.value), Ok("id1".to_string()));
}

#[test]
fn unchanged_session_sets_no_cookie_without_save_unchanged() {
    let layer = SessionLayer::new((), &secret()).with_save_unchanged(false);
    let mut store = TestStore::default();
    let (_, first) = run(&layer, &mut store, None, |_| {});
    let header = header_of(&first.unwrap());
    let (error, second) = run(&layer, &mut store, Some(&header), |_| {});
    assert!(!error);
    assert!(second.is_none());
}

#[test]
fn mutation_is_stored_and_read_back() {
    let layer = SessionLayer::new((), &secret());
    let mut store = TestStore::default();
    let (_, first) = run(&layer, &mut store, None, |s| s.set("k".to_string(), "v".to_string()));
    let header = header_of(&first.expect("a fresh signed cookie"));
    let mut seen = None;
    run(&layer, &mut store, Some(&header), |s| seen = s.get("k"));
    assert_eq!(seen, Some("v".to_string()));
}

#[test]
fn destruction_sends_a_removal_cookie_and_drops_the_record() {
    let layer = SessionLayer::new((), &secret());
    let mut store = TestStore::default();
    let (_, first) = run(&layer, &mut store, None, |s| s.set("k".to_string(), "v".to_string()));
    let header = header_of(&first.unwrap());
    let (error, removal) = run(&layer, &mut store, Some(&header), |s| s.destroy());
    assert!(!error);
    assert_eq!(removal.unwrap().expiry, CookieExpiry::Removal);
    assert!(store.records.get("id1").is_none());
}

#[test]
fn regeneration_issues_a_new_identifier_and_keeps_data() {
    let layer = SessionLayer::new((), &secret());
    let mut store = TestStore::default();
    let (_, first) = run(&layer, &mut store, None, |s| s.set("k".to_string(), "v".to_string()));
    let header = header_of(&first.unwrap());
    let (_, second) = run(&layer, &mut store, Some(&header), |s| s.regenerate());
    let second = second.expect("a cookie for the new identifier");
    let new_id = verify(&secret()[..32], &second.value).unwrap();
    assert_ne!(new_id, "id1");
    assert!(store.records.get("id1").is_none());
    let mut seen = None;
    run(&layer, &mut store, Some(&header_of(&second)), |s| seen = s.get("k"));
    assert_eq!(seen, Some("v".to_string()));
}

#[test]
fn expired_record_is_treated_as_no_cookie() {
    let layer = SessionLayer::new((), &secret());
    let mut store = TestStore::default();
    let mut old = SessionState::fresh();
    old.set("k".to_string(), "v".to_string());
    old.set_expiry(NOW - 1);
    let id = store.store(&old).unwrap();
    let header = header_of(&layer.build_cookie(false, id.clone(), NOW));
    let mut seen = (Some(String::new()), false);
    let (_, cookie) = run(&layer, &mut store, Some(&header), |s| seen = (s.get("k"), s.id().is_some()));
    assert_eq!(seen, (None, false));
    let issued = verify(&secret()[..32], &cookie.unwrap().value).unwrap();
    assert_ne!(issued, id);
}

#[test]
fn store_failure_turns_into_an_internal_error() {
    let layer = SessionLayer::new((), &secret());
    let update = layer.after_store(false, StoreOutcome::Failed, NOW);
    assert!(update.internal_error);
    assert!(update.set_cookie.is_none());
    let update = layer.after_destroy(false, false);
    assert!(update.internal_error);
    assert_eq!(update.set_cookie.unwrap().expiry, CookieExpiry::Removal);
}

#[test]
fn session_state_operations() {
    let mut s = SessionState::fresh();
    assert!(!s.data_changed());
    assert_eq!(s.get("a"), None);
    s.set("a".to_string(), "1".to_string());
    s.set("a".to_string(), "2".to_string());
    s.set("b".to_string(), "3".to_string());
    assert_eq!(s.get("a"), Some("2".to_string()));
    assert_eq!(s.entries().len(), 2);
    s.remove("a");
    assert_eq!(s.get("a"), None);
    assert_eq!(s.get("b"), Some("3".to_string()));
    assert!(s.data_changed());
    assert!(!s.is_expired(NOW));
    s.set_expiry(NOW);
    assert!(!s.is_expired(NOW));
    assert!(s.is_expired(NOW + 1));
    s.regenerate();
    assert!(s.should_regenerate());
    s.destroy();
    assert!(s.is_destroyed());
}

#[test]
fn destroying_twice_in_the_memory_store_is_not_an_error() {
    let store = MemoryStore::new();
    let session = Session::new();
    futures::executor::block_on(async {
        let cookie = store.store_session(session).await.unwrap().unwrap();
        let loaded = store.load_session(cookie).await.unwrap().unwrap();
        assert!(store.destroy_session(loaded.clone()).await.is_ok());
        assert!(store.destroy_session(loaded).await.is_ok());
    });
}
