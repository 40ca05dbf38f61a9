//! The guard in front of the protected routes: a request under the protected
//! prefix goes through only for a session with an authenticated subject.
use vstd::prelude::*;
use vstd::string::StringSliceAdditionalSpecFns;
use crate::session::{SessionRepository, SessionRepositoryError, SessionView};

verus! {

/// What the guard does with a request.
#[derive(Clone, Copy, Debug, PartialEq, Eq, Structural)]
pub enum AccessDecision {
    PassThrough,
    Unauthorized,
}

/// `path` starts with `prefix`, byte for byte.
pub open spec fn has_prefix(path: Seq<u8>, prefix: Seq<u8>) -> bool {
    prefix.len() <= path.len() && path.subrange(0, prefix.len() as int) == prefix
}

/// The guard lets a request through: its path is public, or the session has an
/// authenticated subject.
pub open spec fn access_allowed(s: SessionView, path: Seq<u8>, prefix: Seq<u8>) -> bool {
    !has_prefix(path, prefix) || s.subject is Some
}

/// Whether a request path lies under the protected prefix.
pub fn is_protected_path(path: &str, prefix: &str) -> (r: bool)
    ensures
        r == has_prefix(path.spec_bytes(), prefix.spec_bytes()),
{
    let p = path.as_bytes();
    let q = prefix.as_bytes();
    if q.len() > p.len() {
        return false;
    }
    let mut i: usize = 0;
    while i < q.len()
        invariant
            q.len() <= p.len(),
            p@ == path.spec_bytes(),
            q@ == prefix.spec_bytes(),
            i <= q.len(),
            p@.subrange(0, i as int) == q@.subrange(0, i as int),
        decreases q.len() - i,
    {
        if p[i] != q[i] {
            assert(p@.subrange(0, q.len() as int)[i as int] != q@[i as int]);
            return false;
        }
        assert(p@.subrange(0, i + 1) == p@.subrange(0, i as int).push(p@[i as int]));
        assert(q@.subrange(0, i + 1) == q@.subrange(0, i as int).push(q@[i as int]));
        i = i + 1;
    }
    assert(q@.subrange(0, q.len() as int) == q@);
    true
}

/// The guard's verdict on a protected request, from the lookup of the
/// session's subject: only a subject that was found lets it through; an
/// absent subject and a failed lookup are answered alike.
pub fn access_decision(subject: &Result<Option<String>, SessionRepositoryError>) -> (r: AccessDecision)
    ensures
        r is PassThrough <==> (subject is Ok && subject->Ok_0 is Some),
{
    match subject {
        Ok(Some(_)) => AccessDecision::PassThrough,
        _ => AccessDecision::Unauthorized,
    }
}

/// The guard on a request for `path`, with the protected routes under `prefix`.
/// A public path goes through without the session being read.
pub fn check_access<S: SessionRepository>(store: &S, path: &str, prefix: &str) -> (r: AccessDecision)
    ensures
        !has_prefix(path.spec_bytes(), prefix.spec_bytes()) ==> r is PassThrough,
        r is PassThrough ==> access_allowed(store.session(), path.spec_bytes(), prefix.spec_bytes()),
        store.reliable() && store.session().subject is Some ==> r is PassThrough,
{
    if !is_protected_path(path, prefix) {
        return AccessDecision::PassThrough;
    }
    access_decision(&store.get_oidc_user_subject())
}

} // verus!
