//! What the login flow guarantees across calls, proved over the models that
//! the coordinator's and the access guard's contracts are stated in.
use vstd::prelude::*;
use crate::flow::{
    AuthError, AuthorizationRequest, TokenOutcome, begun_session, callback_result, callback_session,
};
use crate::access::{access_allowed, has_prefix};
use crate::session::SessionView;

verus! {

/// A login attempt started with `request` and answered with its own CSRF
/// token, by a provider whose ID token verifies and whose access-token hash
/// (if it carries one) matches the recomputed one, authenticates the subject
/// and leaves no flow secret behind.
pub proof fn lemma_login_round_trip(
    s: SessionView,
    request: AuthorizationRequest,
    subject: String,
    access_token_hash: Option<String>,
    recomputed_hash: Option<Seq<char>>,
)
    requires
        access_token_hash is Some ==> recomputed_hash == Some(access_token_hash->Some_0@),
    ensures
        callback_result(
            begun_session(s, request),
            request.csrf_token@,
            (TokenOutcome::Verified { subject, access_token_hash }),
            recomputed_hash,
        ) == Ok::<Seq<char>, AuthError>(subject@),
        callback_session(
            begun_session(s, request),
            request.csrf_token@,
            (TokenOutcome::Verified { subject, access_token_hash }),
            recomputed_hash,
        ) == (SessionView { subject: Some(subject@), csrf_token: None, nonce: None, pkce_verifier: None }),
{
}

/// A callback whose `state` differs from the stored CSRF token is refused
/// with `CsrfMismatch`, even when the ID token verifies; the flow secrets are
/// cleared and the subject is left as it was.
pub proof fn lemma_csrf_mismatch_rejected(
    s: SessionView,
    state: Seq<char>,
    subject: String,
    access_token_hash: Option<String>,
    recomputed_hash: Option<Seq<char>>,
)
    requires
        s.flow_complete(),
        state != s.csrf_token->Some_0,
    ensures
        callback_result(s, state, (TokenOutcome::Verified { subject, access_token_hash }), recomputed_hash)
            == Err::<Seq<char>, AuthError>(AuthError::CsrfMismatch),
        callback_session(s, state, (TokenOutcome::Verified { subject, access_token_hash }), recomputed_hash)
            == s.without_flow(),
        callback_session(s, state, (TokenOutcome::Verified { subject, access_token_hash }), recomputed_hash).subject
            == s.subject,
{
}

/// Once a callback has succeeded, a second callback on the same session,
/// whatever it carries, finds no flow state.
pub proof fn lemma_replay_rejected(
    s: SessionView,
    state: Seq<char>,
    outcome: TokenOutcome,
    recomputed_hash: Option<Seq<char>>,
    replay_state: Seq<char>,
    replay_outcome: TokenOutcome,
    replay_hash: Option<Seq<char>>,
)
    requires
        callback_result(s, state, outcome, recomputed_hash) is Ok,
    ensures
        callback_result(
            callback_session(s, state, outcome, recomputed_hash),
            replay_state,
            replay_outcome,
            replay_hash,
        ) == Err::<Seq<char>, AuthError>(AuthError::MissingFlowState),
{
}

/// A callback on a session in which no login attempt was started finds no
/// flow state, whatever it carries.
pub proof fn lemma_missing_flow_rejected(
    s: SessionView,
    state: Seq<char>,
    outcome: TokenOutcome,
    recomputed_hash: Option<Seq<char>>,
)
    requires
        !s.flow_complete(),
    ensures
        callback_result(s, state, outcome, recomputed_hash) == Err::<Seq<char>, AuthError>(
            AuthError::MissingFlowState,
        ),
        callback_session(s, state, outcome, recomputed_hash).subject == s.subject,
{
}

/// When the verified claims carry an access-token hash that the recomputed
/// hash does not match, the callback fails with `AccessTokenBindingFailed`,
/// even though the CSRF token and the nonce are valid.
pub proof fn lemma_binding_mismatch_rejected(
    s: SessionView,
    subject: String,
    expected_hash: String,
    recomputed_hash: Option<Seq<char>>,
)
    requires
        s.flow_complete(),
        recomputed_hash != Some(expected_hash@),
    ensures
        callback_result(
            s,
            s.csrf_token->Some_0,
            (TokenOutcome::Verified { subject, access_token_hash: Some(expected_hash) }),
            recomputed_hash,
        ) == Err::<Seq<char>, AuthError>(AuthError::AccessTokenBindingFailed),
{
}

/// A failed callback never writes the subject.
pub proof fn lemma_failed_callback_keeps_subject(
    s: SessionView,
    state: Seq<char>,
    outcome: TokenOutcome,
    recomputed_hash: Option<Seq<char>>,
)
    requires
        callback_result(s, state, outcome, recomputed_hash) is Err,
    ensures
        callback_session(s, state, outcome, recomputed_hash) == s.without_flow(),
{
}

/// A protected request on a session without a subject is refused; the same
/// request after a successful callback on that session is let through.
pub proof fn lemma_access_after_login(
    s: SessionView,
    path: Seq<u8>,
    prefix: Seq<u8>,
    state: Seq<char>,
    outcome: TokenOutcome,
    recomputed_hash: Option<Seq<char>>,
)
    requires
        has_prefix(path, prefix),
        s.subject is None,
        callback_result(s, state, outcome, recomputed_hash) is Ok,
    ensures
        !access_allowed(s, path, prefix),
        access_allowed(callback_session(s, state, outcome, recomputed_hash), path, prefix),
{
}

} // verus!
