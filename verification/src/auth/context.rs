//! The authenticated caller and the ownership rule for resources.
use vstd::prelude::*;

verus! {

/// Authentication context extracted from a validated token.
pub struct AuthContext {
    /// Username of the authenticated user.
    pub username: String,
    /// Whether the user is an admin.
    pub is_admin: bool,
}

impl AuthContext {
    /// Creates a new context.
    pub fn new(username: String, is_admin: bool) -> (r: Self)
        ensures
            r.username@ == username@,
            r.is_admin == is_admin,
    {
        AuthContext { username, is_admin }
    }

    /// The ownership rule: admins access everything, other users only what they own.
    pub open spec fn allows(&self, owner: Seq<char>) -> bool {
        self.is_admin || self.username@ == owner
    }

    /// Whether the caller may access a resource owned by `owner_username`.
    pub fn can_access(&self, owner_username: &str) -> (b: bool)
        ensures
            b == self.allows(owner_username@),
    {
        if self.is_admin {
            return true;
        }
        let mine = crate::text::chars_of(self.username.as_str());
        let theirs = crate::text::chars_of(owner_username);
        assert(mine@.subrange(0, mine@.len() as int) == mine@);
        crate::text::slice_eq(&mine, 0, mine.len(), &theirs)
    }
}

/// An admin may access a resource of any owner.
pub proof fn law_admin_can_access_all(ctx: &AuthContext, owner: Seq<char>)
    requires
        ctx.is_admin,
    ensures
        ctx.allows(owner),
{
}

/// A user without admin rights may access a resource exactly when they own it.
pub proof fn law_user_accesses_only_own(ctx: &AuthContext, owner: Seq<char>)
    requires
        !ctx.is_admin,
    ensures
        ctx.allows(owner) <==> ctx.username@ == owner,
{
}

} // verus!
