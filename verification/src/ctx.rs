use vstd::prelude::*;

verus! {

/// The identity of the authenticated user on whose behalf a request runs.
#[derive(Clone, Debug)]
pub struct Ctx {
    user_id: usize,
}

impl Ctx {
    /// The user identifier carried by this context.
    pub closed spec fn spec_user_id(&self) -> usize {
        self.user_id
    }

    /// Builds the context of the user `user_id`.
    pub fn new(user_id: usize) -> (ctx: Self)
        ensures
            ctx.spec_user_id() == user_id,
    {
        Self { user_id }
    }

    /// Returns the identifier the context was built with.
    pub fn user_id(&self) -> (id: usize)
        ensures
            id == self.spec_user_id(),
    {
        self.user_id
    }
}

} // verus!
