//! The authenticated identity attached to a request once credential
//! resolution has succeeded. Immutable for the rest of the request.

use vstd::prelude::*;

verus! {

/// A resolved request context carrying the authenticated user id.
#[derive(Clone, Copy, Debug, PartialEq, Eq, Structural)]
pub struct Ctx {
    pub user_id: u64,
}

impl Ctx {
    /// Attach an identity; resolution is the only intended caller.
    pub fn new(user_id: u64) -> (r: Self)
        ensures
            r.user_id == user_id,
    {
        Ctx { user_id }
    }

    /// The authenticated user id.
    pub fn user_id(&self) -> (r: u64)
        ensures
            r == self.user_id,
    {
        self.user_id
    }
}

} // verus!
