use vstd::prelude::*;

use crate::ctx::{self, Ctx};
use crate::error::Error;
use crate::token::{decimal_value, is_token_for, is_token_of, lemma_token_parts_unique, parse_token};

verus! {

/// The name of the cookie that carries the credential token.
pub const AUTH_TOKEN: &'static str = "auth-token";

/// The per-request slot of the resolution outcome: written once by the
/// resolver, then only read.
pub struct CtxSlot {
    outcome: Option<Result<Ctx, Error>>,
}

impl View for CtxSlot {
    type V = Option<Result<Ctx, Error>>;

    closed spec fn view(&self) -> Self::V {
        self.outcome
    }
}

impl CtxSlot {
    /// The slot of a request that the resolver has not seen yet.
    pub fn new() -> (r: CtxSlot)
        ensures
            r@ is None,
    {
        CtxSlot { outcome: None }
    }

    /// Stores `outcome` if the slot is empty, and tells whether it did; a
    /// stored outcome is never overwritten.
    pub fn insert(&mut self, outcome: Result<Ctx, Error>) -> (r: bool)
        ensures
            r == (old(self)@ is None),
            r ==> final(self)@ == Some(outcome),
            !r ==> final(self)@ == old(self)@,
    {
        if self.outcome.is_none() {
            self.outcome = Some(outcome);
            true
        } else {
            false
        }
    }

    /// The stored outcome, if any.
    pub fn get(&self) -> (r: Option<&Result<Ctx, Error>>)
        ensures
            r matches Some(o) ==> self@ == Some(*o),
            r is None <==> self@ is None,
    {
        match &self.outcome {
            Some(o) => Some(o),
            None => None,
        }
    }
}

/// `v` is a token for the identity `id`.
pub open spec fn has_token_id(v: Seq<char>, id: nat) -> bool {
    exists|exp: Seq<char>, sig: Seq<char>| #[trigger] is_token_for(v, id, exp, sig)
}

/// The identity that the token `v` carries, if `v` is a token whose
/// identity fits in 64 bits.
pub open spec fn token_id(v: Seq<char>) -> Option<nat> {
    if exists|id: nat| id <= u64::MAX && #[trigger] has_token_id(v, id) {
        Some(choose|id: nat| id <= u64::MAX && #[trigger] has_token_id(v, id))
    } else {
        None
    }
}

pub open spec fn cookie_view(cookie: Option<&str>) -> Option<Seq<char>> {
    match cookie {
        Some(v) => Some(v@),
        None => None,
    }
}

/// `outcome` is what resolving a request whose auth cookie holds `cookie`
/// (or none) yields.
pub open spec fn resolves_to(cookie: Option<Seq<char>>, outcome: Result<Ctx, Error>) -> bool {
    match cookie {
        None => outcome == Err::<Ctx, Error>(Error::AuthFailNoAuthTokenCookie),
        Some(v) => match token_id(v) {
            None => outcome == Err::<Ctx, Error>(Error::AuthFailTokenWrongFormat),
            Some(id) => if id == 0 {
                outcome == Err::<Ctx, Error>(Error::CtxCreateFail(ctx::Error::CtxCannotNewRootCtx))
            } else {
                outcome matches Ok(c) && c.id() == id
            },
        },
    }
}

/// Whether the resolver scrubs the cookie: only a cookie that is present
/// and did not resolve. An absent one is left alone.
pub open spec fn spec_removes_cookie(cookie: Option<Seq<char>>, outcome: Result<Ctx, Error>) -> bool {
    cookie is Some && outcome is Err
}

/// Resolves the context of a request from the value of its auth cookie.
/// The expiration and signature of a well-formed token are not checked:
/// a token is accepted once its shape is right.
pub fn resolve_ctx(cookie: Option<&str>) -> (r: Result<Ctx, Error>)
    ensures
        resolves_to(cookie_view(cookie), r),
{
    match cookie {
        None => Err(Error::AuthFailNoAuthTokenCookie),
        Some(token) => match parse_token(token) {
            Ok(cred) => {
                proof {
                    let v = token@;
                    assert(has_token_id(v, cred.user_id as nat));
                    let id = choose|id: nat| id <= u64::MAX && #[trigger] has_token_id(v, id);
                    let (exp, sig) = choose|exp: Seq<char>, sig: Seq<char>|
                        #[trigger] is_token_for(v, id, exp, sig);
                    assert(is_token_for(v, id, exp, sig));
                    assert(token_id(v) == Some(cred.user_id as nat));
                }
                match Ctx::new(cred.user_id) {
                    Ok(c) => Ok(c),
                    Err(e) => Err(Error::CtxCreateFail(e)),
                }
            },
            Err(e) => {
                proof {
                    let v = token@;
                    if exists|id: nat| id <= u64::MAX && #[trigger] has_token_id(v, id) {
                        let id = choose|id: nat| id <= u64::MAX && #[trigger] has_token_id(v, id);
                        let (exp, sig) = choose|exp: Seq<char>, sig: Seq<char>|
                            #[trigger] is_token_for(v, id, exp, sig);
                        assert(is_token_for(v, id, exp, sig));
                    }
                }
                Err(e)
            },
        },
    }
}

/// The resolver stage. It runs for every request, records the outcome in
/// the request's slot (if the slot is still empty) and never rejects the
/// request itself. It returns whether the auth cookie is to be removed.
pub fn mw_ctx_resolver(cookie: Option<&str>, slot: &mut CtxSlot) -> (remove_cookie: bool)
    ensures
        old(slot)@ is None ==> (final(slot)@ matches Some(o) && resolves_to(cookie_view(cookie), o)
            && remove_cookie == spec_removes_cookie(cookie_view(cookie), o)),
        old(slot)@ is Some ==> final(slot)@ == old(slot)@ && !remove_cookie,
{
    let outcome = resolve_ctx(cookie);
    let remove = cookie.is_some() && outcome.is_err();
    let stored = slot.insert(outcome);
    stored && remove
}

/// What the extractor hands a handler that asks for a context.
pub open spec fn spec_from_request_parts(stored: Option<Result<Ctx, Error>>) -> Result<Ctx, Error> {
    match stored {
        None => Err(Error::AuthFailCtxNotInRequestExt),
        Some(o) => o,
    }
}

impl Ctx {
    /// The context of the request, as the resolver stored it: its failure
    /// if it failed, and a distinct error if the resolver did not run.
    pub fn from_request_parts(slot: &CtxSlot) -> (r: Result<Ctx, Error>)
        ensures
            r == spec_from_request_parts(slot@),
    {
        match slot.get() {
            None => Err(Error::AuthFailCtxNotInRequestExt),
            Some(Ok(c)) => Ok(*c),
            Some(Err(e)) => Err(e.clone()),
        }
    }
}

/// What protected routes require: the request proceeds only with a context.
pub open spec fn spec_requires_auth(stored: Option<Result<Ctx, Error>>) -> Result<(), Error> {
    match spec_from_request_parts(stored) {
        Ok(_) => Ok(()),
        Err(e) => Err(e),
    }
}

/// The enforcer stage of protected routes. `Err` is the request's terminal
/// error, and the handler behind the enforcer is not run.
pub fn mw_requires_auth(slot: &CtxSlot) -> (r: Result<(), Error>)
    ensures
        r == spec_requires_auth(slot@),
{
    match Ctx::from_request_parts(slot) {
        Ok(_) => Ok(()),
        Err(e) => Err(e),
    }
}

/// Which routes a request goes to.
#[derive(Clone, Copy, Debug, PartialEq, Eq, Structural)]
pub enum RouteAccess {
    /// Open routes: the outcome is not enforced.
    Public,
    /// Routes behind the enforcer.
    Protected,
}

pub open spec fn spec_check_route_access(access: RouteAccess, stored: Option<Result<Ctx, Error>>) -> Result<(), Error> {
    match access {
        RouteAccess::Public => Ok(()),
        RouteAccess::Protected => spec_requires_auth(stored),
    }
}

/// Whether a request may reach the handler of its route: a public route is
/// always reached, a protected one only with a context.
pub fn check_route_access(access: RouteAccess, slot: &CtxSlot) -> (r: Result<(), Error>)
    ensures
        r == spec_check_route_access(access, slot@),
{
    match access {
        RouteAccess::Public => Ok(()),
        RouteAccess::Protected => mw_requires_auth(slot),
    }
}

/// A token for an identity that fits in 64 bits resolves to that identity.
pub proof fn lemma_token_id_of_token(v: Seq<char>, id: nat, exp: Seq<char>, sig: Seq<char>)
    requires
        id <= u64::MAX,
        is_token_for(v, id, exp, sig),
    ensures
        token_id(v) == Some(id),
{
    assert(has_token_id(v, id));
    let id2 = choose|id2: nat| id2 <= u64::MAX && #[trigger] has_token_id(v, id2);
    let (e2, s2) = choose|e2: Seq<char>, s2: Seq<char>| #[trigger] is_token_for(v, id2, e2, s2);
    let d1 = choose|d: Seq<char>| #[trigger] is_token_of(v, d, exp, sig) && decimal_value(d) == id;
    let d2 = choose|d: Seq<char>| #[trigger] is_token_of(v, d, e2, s2) && decimal_value(d) == id2;
    lemma_token_parts_unique(v, d1, exp, sig, d2, e2, s2);
}

/// A request-derived context is never the root context.
pub proof fn lemma_resolved_ctx_is_not_root(cookie: Option<Seq<char>>, outcome: Result<Ctx, Error>)
    requires
        resolves_to(cookie, outcome),
    ensures
        outcome matches Ok(c) ==> c.id() != 0,
{
}

/// Without an auth cookie the outcome is `AuthFailNoAuthTokenCookie`, and no
/// cookie is removed: absent in, absent out.
pub proof fn lemma_absent_cookie_left_alone(outcome: Result<Ctx, Error>)
    requires
        resolves_to(None, outcome),
    ensures
        outcome == Err::<Ctx, Error>(Error::AuthFailNoAuthTokenCookie),
        !spec_removes_cookie(None, outcome),
{
}

/// A malformed auth cookie resolves to the format error and is removed:
/// present and invalid in, absent out.
pub proof fn lemma_malformed_cookie_removed(v: Seq<char>, outcome: Result<Ctx, Error>)
    requires
        token_id(v) is None,
        resolves_to(Some(v), outcome),
    ensures
        outcome == Err::<Ctx, Error>(Error::AuthFailTokenWrongFormat),
        spec_removes_cookie(Some(v), outcome),
{
}

/// A protected route refuses every request whose resolution failed, with
/// that very failure as the terminal error, so its handler never runs; a
/// request that the resolver did not see is refused too.
pub proof fn lemma_protected_route_rejects_failure(stored: Option<Result<Ctx, Error>>)
    requires
        !(stored matches Some(Ok(_))),
    ensures
        spec_check_route_access(RouteAccess::Protected, stored) is Err,
        stored matches Some(Err(e)) ==> spec_check_route_access(RouteAccess::Protected, stored) == Err::<
            (),
            Error,
        >(e),
        stored is None ==> spec_check_route_access(RouteAccess::Protected, stored) == Err::<(), Error>(
            Error::AuthFailCtxNotInRequestExt,
        ),
{
}

/// A public route is reached whatever the resolution outcome was.
pub proof fn lemma_public_route_ignores_outcome(stored: Option<Result<Ctx, Error>>)
    ensures
        spec_check_route_access(RouteAccess::Public, stored) == Ok::<(), Error>(()),
{
}

} // verus!
