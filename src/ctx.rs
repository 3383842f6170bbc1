use vstd::prelude::*;

verus! {

/// Failure to build a request context.
#[derive(Clone, Copy, Debug, PartialEq, Eq, Structural)]
pub enum Error {
    /// Identity 0 is reserved for the root context.
    CtxCannotNewRootCtx,
}

/// Who is making the request. Identity 0 is the root context, which only
/// `root_ctx` builds; every request-derived context has a non-zero identity.
#[derive(Clone, Copy, Debug, PartialEq, Eq, Structural)]
pub struct Ctx {
    user_id: u64,
}

impl Ctx {
    /// The identity that this context stands for.
    pub closed spec fn id(&self) -> u64 {
        self.user_id
    }

    /// The distinguished context of internal, trusted callers.
    pub fn root_ctx() -> (r: Ctx)
        ensures
            r.id() == 0,
    {
        Ctx { user_id: 0 }
    }

    /// The context of a regular user; identity 0 is refused.
    pub fn new(user_id: u64) -> (r: Result<Ctx, Error>)
        ensures
            user_id == 0 ==> r == Err::<Ctx, Error>(Error::CtxCannotNewRootCtx),
            user_id != 0 ==> (r matches Ok(c) && c.id() == user_id),
    {
        if user_id == 0 {
            Err(Error::CtxCannotNewRootCtx)
        } else {
            Ok(Ctx { user_id })
        }
    }

    pub fn user_id(&self) -> (r: u64)
        ensures
            r == self.id(),
    {
        self.user_id
    }
}

} // verus!
