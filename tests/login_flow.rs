use bp_server::flow::{
    begin_login, decide_callback, flow_state_from_reads, handle_callback, load_flow_state, logout, next_callback_step,
    AuthError, AuthorizationRequest, CallbackStep, TokenOutcome,
};
use bp_server::session::{
    MemorySessionRepository, SessionKey, SessionRepository, SessionRepositoryError, SessionView,
};

fn request(csrf: &str) -> AuthorizationRequest {
    AuthorizationRequest {
        authorize_url: "https://id.example.com/authorize?state=abc123".to_string(),
        csrf_token: csrf.to_string(),
        nonce: "nonce-1".to_string(),
        pkce_verifier: "verifier-1".to_string(),
    }
}

fn verified(subject: &str, hash: Option<&str>) -> TokenOutcome {
    TokenOutcome::Verified {
        subject: subject.to_string(),
        access_token_hash: hash.map(|h| h.to_string()),
    }
}

fn begun() -> MemorySessionRepository {
    let mut store = MemorySessionRepository::new();
    let url = begin_login(&mut store, request("abc123")).ok().unwrap();
    assert_eq!(url, "https://id.example.com/authorize?state=abc123");
    store
}

fn flow_cleared(store: &MemorySessionRepository) -> bool {
    store.csrf_token.is_none() && store.nonce.is_none() && store.pkce_verifier.is_none()
}

#[test]
fn begin_login_stores_all_three_secrets() {
    let store = begun();
    assert_eq!(store.csrf_token.as_deref(), Some("abc123"));
    assert_eq!(store.nonce.as_deref(), Some("nonce-1"));
    assert_eq!(store.pkce_verifier.as_deref(), Some("verifier-1"));
    assert_eq!(store.subject, None);
}

#[test]
fn begin_login_keeps_existing_subject() {
    let mut store = MemorySessionRepository::new();
    store.subject = Some("alice".to_string());
    assert!(begin_login(&mut store, request("abc123")).is_ok());
    assert_eq!(store.subject.as_deref(), Some("alice"));
}

#[test]
fn round_trip_authenticates_and_clears_flow() {
    let mut store = begun();
    let outcome = verified("user-42", Some("hash-a"));
    let r = handle_callback(&mut store, &"abc123".to_string(), &outcome, &Some("hash-a".to_string()));
    assert_eq!(r.ok().as_deref(), Some("user-42"));
    assert_eq!(store.subject.as_deref(), Some("user-42"));
    assert!(flow_cleared(&store));
}

#[test]
fn round_trip_without_hash_claim() {
    let mut store = begun();
    let r = handle_callback(&mut store, &"abc123".to_string(), &verified("user-7", None), &None);
    assert_eq!(r.ok().as_deref(), Some("user-7"));
    assert_eq!(store.subject.as_deref(), Some("user-7"));
    assert!(flow_cleared(&store));
}

#[test]
fn csrf_mismatch_is_rejected() {
    let mut store = begun();
    let r = handle_callback(&mut store, &"xyz789".to_string(), &verified("user-42", None), &None);
    assert_eq!(r.err(), Some(AuthError::CsrfMismatch));
    assert!(flow_cleared(&store));
    assert_eq!(store.subject, None);
}

#[test]
fn replayed_callback_finds_no_flow() {
    let mut store = begun();
    let outcome = verified("user-42", None);
    let state = "abc123".to_string();
    assert!(handle_callback(&mut store, &state, &outcome, &None).is_ok());
    let again = handle_callback(&mut store, &state, &outcome, &None);
    assert_eq!(again.err(), Some(AuthError::MissingFlowState));
    assert_eq!(store.subject.as_deref(), Some("user-42"));
}

#[test]
fn callback_without_login_finds_no_flow() {
    let mut store = MemorySessionRepository::new();
    let r = handle_callback(&mut store, &"abc123".to_string(), &verified("user-42", None), &None);
    assert_eq!(r.err(), Some(AuthError::MissingFlowState));
    assert_eq!(store.subject, None);
}

#[test]
fn partial_flow_is_missing_flow() {
    let mut store = begun();
    store.nonce = None;
    let r = handle_callback(&mut store, &"abc123".to_string(), &verified("user-42", None), &None);
    assert_eq!(r.err(), Some(AuthError::MissingFlowState));
    assert!(flow_cleared(&store));
}

#[test]
fn binding_mismatch_is_rejected() {
    let mut store = begun();
    let outcome = verified("user-42", Some("hash-a"));
    let r = handle_callback(&mut store, &"abc123".to_string(), &outcome, &Some("hash-b".to_string()));
    assert_eq!(r.err(), Some(AuthError::AccessTokenBindingFailed));
    assert!(flow_cleared(&store));
    assert_eq!(store.subject, None);
}

#[test]
fn binding_without_recomputed_hash_is_rejected() {
    let mut store = begun();
    let outcome = verified("user-42", Some("hash-a"));
    let r = handle_callback(&mut store, &"abc123".to_string(), &outcome, &None);
    assert_eq!(r.err(), Some(AuthError::AccessTokenBindingFailed));
}

#[test]
fn provider_failures_keep_their_kind() {
    let cases = [
        (TokenOutcome::ExchangeFailed, AuthError::TokenExchangeFailed),
        (TokenOutcome::MissingIdToken, AuthError::MissingIdToken),
        (TokenOutcome::ClaimsRejected, AuthError::ClaimVerificationFailed),
    ];
    for (outcome, expected) in cases {
        let mut store = begun();
        let r = handle_callback(&mut store, &"abc123".to_string(), &outcome, &None);
        assert_eq!(r.err(), Some(expected));
        assert!(flow_cleared(&store));
        assert_eq!(store.subject, None);
    }
}

#[test]
fn claims_failure_comes_before_csrf_check() {
    let r = decide_callback(
        &"abc123".to_string(),
        &"xyz789".to_string(),
        &TokenOutcome::ClaimsRejected,
        &None,
    );
    assert_eq!(r.err(), Some(AuthError::ClaimVerificationFailed));
}

#[test]
fn csrf_check_comes_before_binding_check() {
    let r = decide_callback(
        &"abc123".to_string(),
        &"xyz789".to_string(),
        &verified("user-42", Some("hash-a")),
        &Some("hash-b".to_string()),
    );
    assert_eq!(r.err(), Some(AuthError::CsrfMismatch));
}

#[test]
fn hash_is_asked_for_only_after_csrf_passes() {
    let csrf = "abc123".to_string();
    let step = next_callback_step(&csrf, &"abc123".to_string(), &verified("u", Some("h")));
    assert!(matches!(step, CallbackStep::RecomputeAccessTokenHash));
    let step = next_callback_step(&csrf, &"xyz789".to_string(), &verified("u", Some("h")));
    assert!(matches!(step, CallbackStep::Decided(Err(AuthError::CsrfMismatch))));
    let step = next_callback_step(&csrf, &"abc123".to_string(), &verified("u", None));
    match step {
        CallbackStep::Decided(Ok(subject)) => assert_eq!(subject, "u"),
        _ => panic!("expected a decided success"),
    }
    let step = next_callback_step(&csrf, &"abc123".to_string(), &TokenOutcome::ExchangeFailed);
    assert!(matches!(step, CallbackStep::Decided(Err(AuthError::TokenExchangeFailed))));
}

#[test]
fn load_flow_state_returns_the_secrets() {
    let mut store = begun();
    let flow = load_flow_state(&mut store).ok().unwrap();
    assert_eq!(flow.csrf_token, "abc123");
    assert_eq!(flow.nonce, "nonce-1");
    assert_eq!(flow.pkce_verifier, "verifier-1");
    assert_eq!(store.csrf_token.as_deref(), Some("abc123"));
}

#[test]
fn load_flow_state_clears_a_partial_flow() {
    let mut store = begun();
    store.pkce_verifier = None;
    assert_eq!(load_flow_state(&mut store).err(), Some(AuthError::MissingFlowState));
    assert!(flow_cleared(&store));
}

#[test]
fn logout_twice_succeeds() {
    let mut store = begun();
    store.subject = Some("user-42".to_string());
    assert!(logout(&mut store).is_ok());
    assert_eq!(store.subject, None);
    assert!(flow_cleared(&store));
    assert!(logout(&mut store).is_ok());
    assert_eq!(store.subject, None);
}

#[test]
fn session_keys_are_pairwise_distinct() {
    let keys = [SessionKey::Subject, SessionKey::CsrfToken, SessionKey::Nonce, SessionKey::PkceVerifier];
    for a in keys {
        for b in keys {
            if a != b {
                assert_ne!(a.as_str(), b.as_str());
            }
        }
    }
    assert_eq!(SessionKey::Subject.as_str(), "OIDC_SUBJECT_KEY");
}

#[test]
fn memory_store_round_trips_each_entry() {
    let mut store = MemorySessionRepository::new();
    assert!(store.save_oidc_user_subject("s".to_string()).is_ok());
    assert!(store.save_oidc_crsf_token("c".to_string()).is_ok());
    assert!(store.save_oidc_nonce_key("n".to_string()).is_ok());
    assert!(store.save_pkce_verifier("v".to_string()).is_ok());
    assert_eq!(store.get_oidc_user_subject().ok().unwrap().as_deref(), Some("s"));
    assert_eq!(store.get_oidc_crsf_token().ok().unwrap().as_deref(), Some("c"));
    assert_eq!(store.get_oidc_nonce_key().ok().unwrap().as_deref(), Some("n"));
    assert_eq!(store.get_pkce_verifier().ok().unwrap().as_deref(), Some("v"));
    assert!(store.clear_oidc_flow_details().is_ok());
    assert_eq!(store.get_oidc_crsf_token().ok().unwrap(), None);
    assert_eq!(store.get_oidc_user_subject().ok().unwrap().as_deref(), Some("s"));
    assert!(store.clear_all().is_ok());
    assert_eq!(store.get_oidc_user_subject().ok().unwrap(), None);
}

/// A store whose every operation fails, as a broken backend would.
struct BrokenStore;

fn broken() -> SessionRepositoryError {
    SessionRepositoryError { description: "store unavailable".to_string() }
}

impl SessionRepository for BrokenStore {
    fn reliable(&self) -> bool {
        false
    }
    fn session(&self) -> SessionView {
        SessionView { subject: None, csrf_token: None, nonce: None, pkce_verifier: None }
    }
    fn get_oidc_user_subject(&self) -> Result<Option<String>, SessionRepositoryError> {
        Err(broken())
    }
    fn get_oidc_crsf_token(&self) -> Result<Option<String>, SessionRepositoryError> {
        Err(broken())
    }
    fn get_oidc_nonce_key(&self) -> Result<Option<String>, SessionRepositoryError> {
        Err(broken())
    }
    fn get_pkce_verifier(&self) -> Result<Option<String>, SessionRepositoryError> {
        Err(broken())
    }
    fn save_oidc_user_subject(&mut self, _s: String) -> Result<(), SessionRepositoryError> {
        Err(broken())
    }
    fn save_oidc_crsf_token(&mut self, _s: String) -> Result<(), SessionRepositoryError> {
        Err(broken())
    }
    fn save_oidc_nonce_key(&mut self, _s: String) -> Result<(), SessionRepositoryError> {
        Err(broken())
    }
    fn save_pkce_verifier(&mut self, _s: String) -> Result<(), SessionRepositoryError> {
        Err(broken())
    }
    fn save_oidc_flow_details(&mut self, _c: String, _n: String, _v: String) -> Result<(), SessionRepositoryError> {
        Err(broken())
    }
    fn clear_oidc_flow_details(&mut self) -> Result<(), SessionRepositoryError> {
        Err(broken())
    }
    fn clear_all(&mut self) -> Result<(), SessionRepositoryError> {
        Err(broken())
    }
}

#[test]
fn failed_write_at_begin_is_session_write_error() {
    let mut store = BrokenStore;
    assert_eq!(begin_login(&mut store, request("abc123")).err(), Some(AuthError::SessionWriteError));
}

#[test]
fn failed_read_at_callback_is_session_read_error() {
    let mut store = BrokenStore;
    let r = handle_callback(&mut store, &"abc123".to_string(), &verified("u", None), &None);
    assert_eq!(r.err(), Some(AuthError::SessionReadError));
}

#[test]
fn failed_logout_is_session_write_error() {
    let mut store = BrokenStore;
    assert_eq!(logout(&mut store).err(), Some(AuthError::SessionWriteError));
}

fn read(v: Option<&str>) -> Result<Option<String>, SessionRepositoryError> {
    Ok(v.map(|s| s.to_string()))
}

#[test]
fn flow_state_from_complete_reads() {
    let flow = flow_state_from_reads(read(Some("c")), read(Some("n")), read(Some("v"))).ok().unwrap();
    assert_eq!((flow.csrf_token.as_str(), flow.nonce.as_str(), flow.pkce_verifier.as_str()), ("c", "n", "v"));
}

#[test]
fn flow_state_from_reads_with_an_absent_secret() {
    let r = flow_state_from_reads(read(Some("c")), read(None), read(Some("v")));
    assert_eq!(r.err(), Some(AuthError::MissingFlowState));
    let r = flow_state_from_reads(read(None), read(None), read(None));
    assert_eq!(r.err(), Some(AuthError::MissingFlowState));
}

#[test]
fn flow_state_from_reads_with_a_failed_read() {
    let r = flow_state_from_reads(read(None), Err(broken()), read(Some("v")));
    assert_eq!(r.err(), Some(AuthError::SessionReadError));
    let r = flow_state_from_reads(read(Some("c")), read(Some("n")), Err(broken()));
    assert_eq!(r.err(), Some(AuthError::SessionReadError));
}
