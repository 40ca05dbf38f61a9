//! The per-session store of flow secrets and of the authenticated subject.
use vstd::prelude::*;

verus! {

/// What a session holds, in the abstract: the authenticated subject and the
/// three secrets of a login attempt that is in progress.
pub struct SessionView {
    pub subject: Option<Seq<char>>,
    pub csrf_token: Option<Seq<char>>,
    pub nonce: Option<Seq<char>>,
    pub pkce_verifier: Option<Seq<char>>,
}

impl SessionView {
    /// A session that holds nothing.
    pub open spec fn empty() -> SessionView {
        SessionView { subject: None, csrf_token: None, nonce: None, pkce_verifier: None }
    }

    /// The same session with the login attempt's secrets removed.
    pub open spec fn without_flow(self) -> SessionView {
        SessionView { subject: self.subject, csrf_token: None, nonce: None, pkce_verifier: None }
    }

    /// No secret of a login attempt is left.
    pub open spec fn flow_cleared(self) -> bool {
        self.csrf_token is None && self.nonce is None && self.pkce_verifier is None
    }

    /// All three secrets of a login attempt are present.
    pub open spec fn flow_complete(self) -> bool {
        self.csrf_token is Some && self.nonce is Some && self.pkce_verifier is Some
    }
}

/// The entries that a session store keeps, one key each.
#[derive(Clone, Copy, Debug, PartialEq, Eq, Structural)]
pub enum SessionKey {
    Subject,
    CsrfToken,
    Nonce,
    PkceVerifier,
}

/// The text under which an entry is stored.
pub open spec fn key_text(k: SessionKey) -> Seq<char> {
    match k {
        SessionKey::Subject => "OIDC_SUBJECT_KEY"@,
        SessionKey::CsrfToken => "OIDC_CSRF_STATE_KEY"@,
        SessionKey::Nonce => "OIDC_NONCE_KEY"@,
        SessionKey::PkceVerifier => "OIDC_PKCE_VERIFIER_KEY"@,
    }
}

impl SessionKey {
    /// The key under which a backing store keeps this entry.
    pub fn as_str(&self) -> (r: &'static str)
        ensures
            r@ == key_text(*self),
    {
        match self {
            SessionKey::Subject => "OIDC_SUBJECT_KEY",
            SessionKey::CsrfToken => "OIDC_CSRF_STATE_KEY",
            SessionKey::Nonce => "OIDC_NONCE_KEY",
            SessionKey::PkceVerifier => "OIDC_PKCE_VERIFIER_KEY",
        }
    }
}

/// Two different entries never share a key, so that no entry can overwrite
/// another one.
pub proof fn lemma_keys_distinct(a: SessionKey, b: SessionKey)
    requires
        a != b,
    ensures
        key_text(a) != key_text(b),
{
    reveal_strlit("OIDC_SUBJECT_KEY");
    reveal_strlit("OIDC_CSRF_STATE_KEY");
    reveal_strlit("OIDC_NONCE_KEY");
    reveal_strlit("OIDC_PKCE_VERIFIER_KEY");
    if key_text(a) == key_text(b) {
        assert(key_text(a).len() == key_text(b).len());
        assert(key_text(a)[5] == key_text(b)[5]);
    }
}

/// A failure of the store behind a session, with the store's own words.
pub struct SessionRepositoryError {
    pub description: String,
}

/// Storage for one session's flow secrets and authenticated subject. Every
/// operation acts on the session that the store was built for.
///
/// A read of an absent entry answers `Ok(None)`. A write that fails leaves the
/// session as it was. A store that is `reliable` never fails, and stays
/// reliable.
pub trait SessionRepository {
    spec fn session(&self) -> SessionView;

    /// Every operation on this store succeeds.
    spec fn reliable(&self) -> bool;

    fn get_oidc_user_subject(&self) -> (r: Result<Option<String>, SessionRepositoryError>)
        ensures
            self.reliable() ==> r is Ok,
            r is Ok ==> r->Ok_0.deep_view() == self.session().subject,
    ;

    fn get_oidc_crsf_token(&self) -> (r: Result<Option<String>, SessionRepositoryError>)
        ensures
            self.reliable() ==> r is Ok,
            r is Ok ==> r->Ok_0.deep_view() == self.session().csrf_token,
    ;

    fn get_oidc_nonce_key(&self) -> (r: Result<Option<String>, SessionRepositoryError>)
        ensures
            self.reliable() ==> r is Ok,
            r is Ok ==> r->Ok_0.deep_view() == self.session().nonce,
    ;

    fn get_pkce_verifier(&self) -> (r: Result<Option<String>, SessionRepositoryError>)
        ensures
            self.reliable() ==> r is Ok,
            r is Ok ==> r->Ok_0.deep_view() == self.session().pkce_verifier,
    ;

    fn save_oidc_user_subject(&mut self, oidc_subject: String) -> (r: Result<(), SessionRepositoryError>)
        ensures
            old(self).reliable() ==> r is Ok,
            final(self).reliable() == old(self).reliable(),
            r is Ok ==> final(self).session() == (SessionView {
                subject: Some(oidc_subject@),
                ..old(self).session()
            }),
            r is Err ==> final(self).session() == old(self).session(),
    ;

    fn save_oidc_crsf_token(&mut self, csrf_token: String) -> (r: Result<(), SessionRepositoryError>)
        ensures
            old(self).reliable() ==> r is Ok,
            final(self).reliable() == old(self).reliable(),
            r is Ok ==> final(self).session() == (SessionView {
                csrf_token: Some(csrf_token@),
                ..old(self).session()
            }),
            r is Err ==> final(self).session() == old(self).session(),
    ;

    fn save_oidc_nonce_key(&mut self, nonce: String) -> (r: Result<(), SessionRepositoryError>)
        ensures
            old(self).reliable() ==> r is Ok,
            final(self).reliable() == old(self).reliable(),
            r is Ok ==> final(self).session() == (SessionView {
                nonce: Some(nonce@),
                ..old(self).session()
            }),
            r is Err ==> final(self).session() == old(self).session(),
    ;

    fn save_pkce_verifier(&mut self, verifier: String) -> (r: Result<(), SessionRepositoryError>)
        ensures
            old(self).reliable() ==> r is Ok,
            final(self).reliable() == old(self).reliable(),
            r is Ok ==> final(self).session() == (SessionView {
                pkce_verifier: Some(verifier@),
                ..old(self).session()
            }),
            r is Err ==> final(self).session() == old(self).session(),
    ;

    /// Stores the three secrets of a login attempt in one write: all of them or,
    /// on failure, none.
    fn save_oidc_flow_details(&mut self, csrf_token: String, nonce: String, verifier: String) -> (r:
        Result<(), SessionRepositoryError>)
        ensures
            old(self).reliable() ==> r is Ok,
            final(self).reliable() == old(self).reliable(),
            r is Ok ==> final(self).session() == (SessionView {
                csrf_token: Some(csrf_token@),
                nonce: Some(nonce@),
                pkce_verifier: Some(verifier@),
                ..old(self).session()
            }),
            r is Err ==> final(self).session() == old(self).session(),
    ;

    /// Removes the three secrets of the login attempt together.
    fn clear_oidc_flow_details(&mut self) -> (r: Result<(), SessionRepositoryError>)
        ensures
            old(self).reliable() ==> r is Ok,
            final(self).reliable() == old(self).reliable(),
            r is Ok ==> final(self).session() == old(self).session().without_flow(),
            r is Err ==> final(self).session() == old(self).session(),
    ;

    /// Removes everything that the session holds.
    fn clear_all(&mut self) -> (r: Result<(), SessionRepositoryError>)
        ensures
            old(self).reliable() ==> r is Ok,
            final(self).reliable() == old(self).reliable(),
            r is Ok ==> final(self).session() == SessionView::empty(),
            r is Err ==> final(self).session() == old(self).session(),
    ;
}

/// A session held in memory: the reference store, which never fails.
pub struct MemorySessionRepository {
    pub subject: Option<String>,
    pub csrf_token: Option<String>,
    pub nonce: Option<String>,
    pub pkce_verifier: Option<String>,
}

impl MemorySessionRepository {
    /// A session that holds nothing yet.
    pub fn new() -> (r: MemorySessionRepository)
        ensures
            r.session() == SessionView::empty(),
    {
        MemorySessionRepository { subject: None, csrf_token: None, nonce: None, pkce_verifier: None }
    }
}

impl SessionRepository for MemorySessionRepository {
    open spec fn reliable(&self) -> bool {
        true
    }

    open spec fn session(&self) -> SessionView {
        SessionView {
            subject: self.subject.deep_view(),
            csrf_token: self.csrf_token.deep_view(),
            nonce: self.nonce.deep_view(),
            pkce_verifier: self.pkce_verifier.deep_view(),
        }
    }

    fn get_oidc_user_subject(&self) -> (r: Result<Option<String>, SessionRepositoryError>) {
        Ok(self.subject.clone())
    }

    fn get_oidc_crsf_token(&self) -> (r: Result<Option<String>, SessionRepositoryError>) {
        Ok(self.csrf_token.clone())
    }

    fn get_oidc_nonce_key(&self) -> (r: Result<Option<String>, SessionRepositoryError>) {
        Ok(self.nonce.clone())
    }

    fn get_pkce_verifier(&self) -> (r: Result<Option<String>, SessionRepositoryError>) {
        Ok(self.pkce_verifier.clone())
    }

    fn save_oidc_user_subject(&mut self, oidc_subject: String) -> (r: Result<(), SessionRepositoryError>) {
        self.subject = Some(oidc_subject);
        Ok(())
    }

    fn save_oidc_crsf_token(&mut self, csrf_token: String) -> (r: Result<(), SessionRepositoryError>) {
        self.csrf_token = Some(csrf_token);
        Ok(())
    }

    fn save_oidc_nonce_key(&mut self, nonce: String) -> (r: Result<(), SessionRepositoryError>) {
        self.nonce = Some(nonce);
        Ok(())
    }

    fn save_pkce_verifier(&mut self, verifier: String) -> (r: Result<(), SessionRepositoryError>) {
        self.pkce_verifier = Some(verifier);
        Ok(())
    }

    fn save_oidc_flow_details(&mut self, csrf_token: String, nonce: String, verifier: String) -> (r:
        Result<(), SessionRepositoryError>) {
        self.csrf_token = Some(csrf_token);
        self.nonce = Some(nonce);
        self.pkce_verifier = Some(verifier);
        Ok(())
    }

    fn clear_oidc_flow_details(&mut self) -> (r: Result<(), SessionRepositoryError>) {
        self.csrf_token = None;
        self.nonce = None;
        self.pkce_verifier = None;
        Ok(())
    }

    fn clear_all(&mut self) -> (r: Result<(), SessionRepositoryError>) {
        self.subject = None;
        self.csrf_token = None;
        self.nonce = None;
        self.pkce_verifier = None;
        Ok(())
    }
}

} // verus!
