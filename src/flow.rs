//! The login coordinator: starting an authorization request, judging the
//! provider's callback, and logging out.
//!
//! The exchanges with the identity provider (code exchange, ID-token
//! verification, access-token hashing) are made by the caller, which hands
//! their outcomes in as plain values; every decision and every change to the
//! session is made here.
use vstd::prelude::*;
use crate::session::{SessionRepository, SessionRepositoryError, SessionView};

verus! {

/// Why a login step failed.
#[derive(Clone, Copy, Debug, PartialEq, Eq, Structural)]
pub enum AuthError {
    SessionWriteError,
    SessionReadError,
    MissingFlowState,
    TokenExchangeFailed,
    MissingIdToken,
    ClaimVerificationFailed,
    CsrfMismatch,
    AccessTokenBindingFailed,
}

/// The secrets of one login attempt, kept in the session across the redirect.
pub struct FlowState {
    pub csrf_token: String,
    pub nonce: String,
    pub pkce_verifier: String,
}

/// A freshly built authorization request: the provider URL to redirect to and
/// the secrets bound into it.
pub struct AuthorizationRequest {
    pub authorize_url: String,
    pub csrf_token: String,
    pub nonce: String,
    pub pkce_verifier: String,
}

/// The query parameters of the provider's redirect back to the application.
pub struct CallBackParameters {
    pub code: String,
    pub state: String,
}

/// What the identity provider's side of the callback produced, checked in
/// this order: the code exchange, the presence of an ID token, the
/// verification of its signature and claims against the stored nonce.
pub enum TokenOutcome {
    ExchangeFailed,
    MissingIdToken,
    ClaimsRejected,
    Verified { subject: String, access_token_hash: Option<String> },
}

/// The next thing a callback needs: either the hash of the access token,
/// recomputed with the ID token's own algorithm and key, or nothing more.
pub enum CallbackStep {
    RecomputeAccessTokenHash,
    Decided(Result<String, AuthError>),
}

/// A callback's result with the subject as a sequence of characters.
pub open spec fn result_view(r: Result<String, AuthError>) -> Result<Seq<char>, AuthError> {
    match r {
        Ok(s) => Ok(s@),
        Err(e) => Err(e),
    }
}

/// The failure came from the session store rather than from a check.
pub open spec fn is_store_error(r: Result<String, AuthError>) -> bool {
    r == Err::<String, AuthError>(AuthError::SessionReadError)
        || r == Err::<String, AuthError>(AuthError::SessionWriteError)
}

/// The session once a login attempt has been started with `request`.
pub open spec fn begun_session(s: SessionView, request: AuthorizationRequest) -> SessionView {
    SessionView {
        csrf_token: Some(request.csrf_token@),
        nonce: Some(request.nonce@),
        pkce_verifier: Some(request.pkce_verifier@),
        ..s
    }
}

/// The verdict on a callback whose session held `csrf_token`, given the
/// callback's `state` parameter, the provider's outcome and, where it was
/// needed, the recomputed access-token hash.
pub open spec fn callback_verdict(
    csrf_token: Seq<char>,
    state: Seq<char>,
    outcome: TokenOutcome,
    recomputed_hash: Option<Seq<char>>,
) -> Result<Seq<char>, AuthError> {
    match outcome {
        TokenOutcome::ExchangeFailed => Err(AuthError::TokenExchangeFailed),
        TokenOutcome::MissingIdToken => Err(AuthError::MissingIdToken),
        TokenOutcome::ClaimsRejected => Err(AuthError::ClaimVerificationFailed),
        TokenOutcome::Verified { subject, access_token_hash } => {
            if state != csrf_token {
                Err(AuthError::CsrfMismatch)
            } else {
                match access_token_hash {
                    None => Ok(subject@),
                    Some(expected) => if recomputed_hash == Some(expected@) {
                        Ok(subject@)
                    } else {
                        Err(AuthError::AccessTokenBindingFailed)
                    },
                }
            }
        },
    }
}

/// The result of a callback on session `s`.
pub open spec fn callback_result(
    s: SessionView,
    state: Seq<char>,
    outcome: TokenOutcome,
    recomputed_hash: Option<Seq<char>>,
) -> Result<Seq<char>, AuthError> {
    if !s.flow_complete() {
        Err(AuthError::MissingFlowState)
    } else {
        callback_verdict(s.csrf_token->Some_0, state, outcome, recomputed_hash)
    }
}

/// The session after a callback: the flow secrets are gone whatever the
/// result, and the subject is set exactly when the callback succeeded.
pub open spec fn callback_session(
    s: SessionView,
    state: Seq<char>,
    outcome: TokenOutcome,
    recomputed_hash: Option<Seq<char>>,
) -> SessionView {
    match callback_result(s, state, outcome, recomputed_hash) {
        Ok(subject) => SessionView { subject: Some(subject), ..s.without_flow() },
        Err(_) => s.without_flow(),
    }
}

/// Records a new login attempt in the session and hands back the URL to
/// redirect the browser to. The three secrets are written in one write; if it
/// fails, no URL is returned and the session is left as it was.
pub fn begin_login<S: SessionRepository>(store: &mut S, request: AuthorizationRequest) -> (r:
    Result<String, AuthError>)
    ensures
        r is Ok ==> r->Ok_0@ == request.authorize_url@,
        r is Ok ==> final(store).session() == begun_session(old(store).session(), request),
        r is Err ==> r == Err::<String, AuthError>(AuthError::SessionWriteError),
        r is Err ==> final(store).session() == old(store).session(),
        old(store).reliable() ==> r is Ok,
        final(store).reliable() == old(store).reliable(),
{
    let AuthorizationRequest { authorize_url, csrf_token, nonce, pkce_verifier } = request;
    match store.save_oidc_flow_details(csrf_token, nonce, pkce_verifier) {
        Ok(()) => Ok(authorize_url),
        Err(_) => Err(AuthError::SessionWriteError),
    }
}

/// Whether the verdict on a callback still waits for the recomputed
/// access-token hash: only once the ID token's claims are verified, the CSRF
/// check has passed and the claims carry a hash.
pub open spec fn needs_token_hash(csrf_token: Seq<char>, state: Seq<char>, outcome: TokenOutcome) -> bool {
    &&& outcome matches TokenOutcome::Verified { access_token_hash, .. }
    &&& state == csrf_token
    &&& access_token_hash is Some
}

/// The verdict on a callback, from the stored CSRF token, the callback's
/// `state` and what the identity provider's side produced.
pub fn decide_callback(
    csrf_token: &String,
    state: &String,
    outcome: &TokenOutcome,
    recomputed_hash: &Option<String>,
) -> (r: Result<String, AuthError>)
    ensures
        result_view(r) == callback_verdict(csrf_token@, state@, *outcome, recomputed_hash.deep_view()),
{
    match outcome {
        TokenOutcome::ExchangeFailed => Err(AuthError::TokenExchangeFailed),
        TokenOutcome::MissingIdToken => Err(AuthError::MissingIdToken),
        TokenOutcome::ClaimsRejected => Err(AuthError::ClaimVerificationFailed),
        TokenOutcome::Verified { subject, access_token_hash } => {
            if *state != *csrf_token {
                Err(AuthError::CsrfMismatch)
            } else {
                match access_token_hash {
                    None => Ok(subject.clone()),
                    Some(expected) => match recomputed_hash {
                        Some(actual) => if *actual == *expected {
                            Ok(subject.clone())
                        } else {
                            Err(AuthError::AccessTokenBindingFailed)
                        },
                        None => Err(AuthError::AccessTokenBindingFailed),
                    },
                }
            }
        },
    }
}

/// What a callback needs next. The access-token hash is asked for only after
/// every earlier check has passed; when the verdict is reached without it, it
/// does not depend on the hash.
pub fn next_callback_step(csrf_token: &String, state: &String, outcome: &TokenOutcome) -> (r:
    CallbackStep)
    ensures
        r is RecomputeAccessTokenHash <==> needs_token_hash(csrf_token@, state@, *outcome),
        r is Decided ==> forall|h: Option<Seq<char>>|
            result_view(r->Decided_0) == #[trigger] callback_verdict(csrf_token@, state@, *outcome, h),
{
    match outcome {
        TokenOutcome::Verified { subject, access_token_hash } => {
            if *state != *csrf_token {
                CallbackStep::Decided(Err(AuthError::CsrfMismatch))
            } else {
                match access_token_hash {
                    None => CallbackStep::Decided(Ok(subject.clone())),
                    Some(_) => CallbackStep::RecomputeAccessTokenHash,
                }
            }
        },
        _ => CallbackStep::Decided(decide_callback(csrf_token, state, outcome, &None)),
    }
}

/// The login attempt's secrets from the three reads of the session: a failed
/// read makes the whole read fail, and an absent secret means that there is no
/// flow to continue.
pub fn flow_state_from_reads(
    csrf_token: Result<Option<String>, SessionRepositoryError>,
    nonce: Result<Option<String>, SessionRepositoryError>,
    pkce_verifier: Result<Option<String>, SessionRepositoryError>,
) -> (r: Result<FlowState, AuthError>)
    ensures
        (csrf_token is Err || nonce is Err || pkce_verifier is Err) <==> r == Err::<FlowState, AuthError>(
            AuthError::SessionReadError,
        ),
        r is Ok <==> (csrf_token matches Ok(Some(_)) && nonce matches Ok(Some(_))
            && pkce_verifier matches Ok(Some(_))),
        r is Ok ==> csrf_token == Ok::<Option<String>, SessionRepositoryError>(Some(r->Ok_0.csrf_token))
            && nonce == Ok::<Option<String>, SessionRepositoryError>(Some(r->Ok_0.nonce))
            && pkce_verifier == Ok::<Option<String>, SessionRepositoryError>(Some(r->Ok_0.pkce_verifier)),
        r is Err ==> r == Err::<FlowState, AuthError>(AuthError::SessionReadError) || r == Err::<
            FlowState,
            AuthError,
        >(AuthError::MissingFlowState),
{
    if csrf_token.is_err() || nonce.is_err() || pkce_verifier.is_err() {
        return Err(AuthError::SessionReadError);
    }
    match (csrf_token, nonce, pkce_verifier) {
        (Ok(Some(csrf_token)), Ok(Some(nonce)), Ok(Some(pkce_verifier))) => Ok(
            FlowState { csrf_token, nonce, pkce_verifier },
        ),
        _ => Err(AuthError::MissingFlowState),
    }
}

/// Reads the login attempt's secrets from the session. If one is absent, or
/// the store cannot be read, the secrets are cleared (as far as the store
/// allows) and the callback goes no further.
pub fn load_flow_state<S: SessionRepository>(store: &mut S) -> (r: Result<FlowState, AuthError>)
    ensures
        r is Ok ==> old(store).session().flow_complete(),
        r is Ok ==> old(store).session().csrf_token == Some(r->Ok_0.csrf_token@),
        r is Ok ==> old(store).session().nonce == Some(r->Ok_0.nonce@),
        r is Ok ==> old(store).session().pkce_verifier == Some(r->Ok_0.pkce_verifier@),
        r is Ok ==> final(store).session() == old(store).session(),
        r is Err ==> r == Err::<FlowState, AuthError>(AuthError::MissingFlowState) || r == Err::<FlowState, AuthError>(AuthError::SessionReadError),
        r == Err::<FlowState, AuthError>(AuthError::MissingFlowState) ==> !old(store).session().flow_complete(),
        r is Err ==> final(store).session() == old(store).session().without_flow() || final(store).session() == old(store).session(),
        old(store).reliable() ==> (r is Ok <==> old(store).session().flow_complete()),
        old(store).reliable() && r is Err ==> r == Err::<FlowState, AuthError>(AuthError::MissingFlowState)
            && final(store).session() == old(store).session().without_flow(),
        final(store).reliable() == old(store).reliable(),
{
    let csrf_token = store.get_oidc_crsf_token();
    let nonce = store.get_oidc_nonce_key();
    let pkce_verifier = store.get_pkce_verifier();
    let flow = flow_state_from_reads(csrf_token, nonce, pkce_verifier);
    if flow.is_err() {
        let _ = store.clear_oidc_flow_details();
    }
    flow
}

/// Judges the provider's callback and settles the session: the login
/// attempt's secrets are cleared whatever the outcome, so that a callback can
/// never be replayed, and the subject is stored only when every check passed.
///
/// `outcome` is what the identity provider's side produced for this callback,
/// and `recomputed_hash` the access-token hash where `next_callback_step`
/// asked for it.
pub fn handle_callback<S: SessionRepository>(
    store: &mut S,
    state: &String,
    outcome: &TokenOutcome,
    recomputed_hash: &Option<String>,
) -> (r: Result<String, AuthError>)
    ensures
        !is_store_error(r) ==> result_view(r) == callback_result(
            old(store).session(),
            state@,
            *outcome,
            recomputed_hash.deep_view(),
        ),
        r is Ok ==> final(store).session() == callback_session(
            old(store).session(),
            state@,
            *outcome,
            recomputed_hash.deep_view(),
        ),
        r is Err ==> final(store).session().subject == old(store).session().subject,
        r is Err ==> final(store).session() == old(store).session().without_flow() || final(store).session() == old(store).session(),
        old(store).reliable() ==> !is_store_error(r) && final(store).session() == callback_session(
            old(store).session(),
            state@,
            *outcome,
            recomputed_hash.deep_view(),
        ),
        final(store).reliable() == old(store).reliable(),
{
    let flow = match load_flow_state(store) {
        Ok(flow) => flow,
        Err(e) => {
            return Err(e);
        },
    };
    let verdict = decide_callback(&flow.csrf_token, state, outcome, recomputed_hash);
    let cleared = store.clear_oidc_flow_details();
    match verdict {
        Err(e) => Err(e),
        Ok(subject) => {
            if cleared.is_err() {
                return Err(AuthError::SessionWriteError);
            }
            match store.save_oidc_user_subject(subject.clone()) {
                Ok(()) => Ok(subject),
                Err(_) => Err(AuthError::SessionWriteError),
            }
        },
    }
}

/// Ends the session: everything it holds is removed, so that calling it
/// again leaves the same empty session.
pub fn logout<S: SessionRepository>(store: &mut S) -> (r: Result<(), AuthError>)
    ensures
        r is Ok ==> final(store).session() == SessionView::empty(),
        r is Err ==> r == Err::<(), AuthError>(AuthError::SessionWriteError),
        r is Err ==> final(store).session() == old(store).session(),
        old(store).reliable() ==> r is Ok,
        final(store).reliable() == old(store).reliable(),
{
    match store.clear_all() {
        Ok(()) => Ok(()),
        Err(_) => Err(AuthError::SessionWriteError),
    }
}

} // verus!
