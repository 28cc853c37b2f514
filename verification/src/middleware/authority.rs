//! The authority gate.
//!
//! Wrapped around the administrative subtree, this gate reads the decoded
//! session identity, takes its role — falling back to the lowest-privilege
//! default when the identity or its role is absent — and compares it with
//! the role this gate requires.  On mismatch it answers with a
//! redirect to the home page instead of an error.

use vstd::prelude::*;

use crate::authority::{check_authority, check_authority_spec};
use crate::pages::index::{UserInfo, UserInfoV};
use crate::request::{home_path, home_path_bytes, GateDecision, GateDecisionV};

verus! {

/// The image of an optional borrowed identity.
pub open spec fn opt_user_view(session: Option<&UserInfo>) -> Option<UserInfoV> {
    match session {
        Some(u) => Some(u@),
        None => None,
    }
}

/// The role a session is treated as holding: its own role when present,
/// and the lowest-privilege default `EMPLOYEE` when the identity or its
/// role is absent.  A missing identity is not itself a reason to block a
/// request at this layer; it is the role comparison that decides.
pub open spec fn effective_authority(session: Option<UserInfoV>) -> Seq<char> {
    match session {
        Some(u) => match u.authority {
            Some(a) => a,
            None => "EMPLOYEE"@,
        },
        None => "EMPLOYEE"@,
    }
}

/// The authority gate's decision: forward exactly when the effective role
/// equals the required role under the closed enumeration; otherwise
/// redirect to the home page.  An unparsable role fails the comparison and
/// redirects; it never surfaces as an error.
pub open spec fn authority_gate(session: Option<UserInfoV>, required: Seq<char>) -> GateDecisionV {
    if check_authority_spec(effective_authority(session), required) is Ok {
        GateDecisionV::Forward
    } else {
        GateDecisionV::Redirect(home_path())
    }
}

/// The authority gate, before it is attached to a pipeline; it carries the
/// role a request's session must hold.
pub struct AuthorityMiddleware {
    pub authority: &'static str,
}

/// The authority gate as attached to a pipeline.
pub struct AuthorityService {
    pub authority: &'static str,
}

impl AuthorityMiddleware {
    /// A gate that requires the given role.
    pub fn new(authority: &'static str) -> (r: Self)
        ensures
            r.authority@ == authority@,
    {
        Self { authority }
    }

    /// The per-request form of this interceptor.
    pub fn new_transform(&self) -> (r: AuthorityService)
        ensures
            r.authority@ == self.authority@,
    {
        AuthorityService { authority: self.authority }
    }
}

impl AuthorityService {
    /// Decides, for one request's decoded session, whether to forward the
    /// request or to answer with a redirect to the home page.
    pub fn call(&self, session: Option<&UserInfo>) -> (r: GateDecision)
        ensures
            r@ == authority_gate(opt_user_view(session), self.authority@),
    {
        let user_authority: String = match session {
            Some(u) => match &u.authority {
                Some(a) => a.clone(),
                None => "EMPLOYEE".to_owned(),
            },
            None => "EMPLOYEE".to_owned(),
        };
        let required_authority: String = self.authority.to_owned();
        match check_authority(&user_authority, &required_authority) {
            Ok(()) => GateDecision::Forward,
            Err(_) => GateDecision::Redirect(vstd::slice::slice_to_vec(home_path_bytes())),
        }
    }
}

/// Builds the authority gate for a required role.
pub fn authority_middleware(authority: &'static str) -> (r: AuthorityMiddleware)
    ensures
        r.authority@ == authority@,
{
    AuthorityMiddleware::new(authority)
}

} // verus!
