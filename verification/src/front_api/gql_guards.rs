use vstd::prelude::*;

use crate::front_api::utils::GqlError;

verus! {

/// The role a request acts under, as the authentication middleware records it.
#[derive(PartialEq, Eq, Structural, Clone, Copy, Debug)]
pub enum Role {
    User,
    Anon,
    Admin,
}

/// Admits a request only when it acts under one given role.
pub struct RoleGuard {
    role: Role,
}

impl RoleGuard {
    pub closed spec fn spec_role(&self) -> Role {
        self.role
    }

    /// A guard that admits the given role only.
    pub fn new(role: Role) -> (guard: Self)
        ensures
            guard.spec_role() == role,
    {
        Self { role }
    }

    /// Admits a request whose context records this guard's role; refuses
    /// any other, and one whose context records no role, with "Forbidden".
    pub fn check(&self, ctx_role: Option<Role>) -> (r: Result<(), GqlError>)
        ensures
            r is Ok <==> ctx_role == Some(self.spec_role()),
            r matches Err(e) ==> e.message@ == "Forbidden"@ && e.error_code is None,
    {
        match ctx_role {
            Some(role) => {
                if role == self.role {
                    return Ok(());
                }
            },
            None => {},
        }
        Err(GqlError::new("Forbidden"))
    }
}

} // verus!
