//! The administrative pages' own decision: a role change must name the
//! same user in its body as in its path, and the session identity is
//! refreshed with the new role once the store accepted it.

use vstd::prelude::*;

verus! {

/// A request to change a user's role.
pub struct UpdateAuthority {
    pub user_id: i64,
    pub new_authority: String,
}

/// Whether a role change request is consistent: the user named in the
/// request body is the user named in the path.
pub fn update_authority_allowed(form: &UpdateAuthority, path_user_id: i64) -> (r: bool)
    ensures
        r == (form.user_id == path_user_id),
{
    form.user_id == path_user_id
}

} // verus!
