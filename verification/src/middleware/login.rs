//! The login gate.
//!
//! Every request passes through this gate first.  It checks only for the
//! presence of a non-empty `token` cookie — a cheap pre-check, not an
//! authenticated decode — and redirects between the login page and the
//! protected area: an authenticated request is kept away from `/login`,
//! and an unauthenticated request is sent to it.

use vstd::prelude::*;

use crate::cookies::{has_login_token, header_has_token};
use crate::request::{
    home_path, home_path_bytes, login_path, login_path_bytes, GateDecision, GateDecisionV, Request,
};

verus! {

/// Whether a request counts as logged in at this gate: its cookie header
/// carries a `token` entry with a non-empty value.
pub open spec fn is_logged_in(cookie_header: Option<Seq<u8>>) -> bool {
    match cookie_header {
        Some(h) => header_has_token(h),
        None => false,
    }
}

/// The login gate's decision: redirect home when an authenticated request
/// asks for the login page, redirect to login when an unauthenticated
/// request asks for anything else, and forward otherwise.
pub open spec fn login_gate(path: Seq<u8>, cookie_header: Option<Seq<u8>>) -> GateDecisionV {
    let logged_in = is_logged_in(cookie_header);
    if logged_in && path == login_path() {
        GateDecisionV::Redirect(home_path())
    } else if !logged_in && path != login_path() {
        GateDecisionV::Redirect(login_path())
    } else {
        GateDecisionV::Forward
    }
}

/// The login gate, before it is attached to a pipeline.
pub struct Login;

/// The login gate as attached to a pipeline; the stage it forwards to is
/// managed by the surrounding pipeline.
pub struct LoginMiddleware;

impl Login {
    /// The per-request form of this interceptor.
    pub fn new_transform(&self) -> LoginMiddleware {
        LoginMiddleware
    }
}

impl LoginMiddleware {
    /// Decides, for one request, whether to forward it or to answer with a
    /// redirect.
    pub fn call(&self, request: &Request) -> (r: GateDecision)
        ensures
            r@ == login_gate(request@.path, request@.cookie_header),
    {
        let is_logged_in = match &request.cookie_header {
            Some(h) => has_login_token(h.as_slice()),
            None => false,
        };
        let at_login = crate::bytes_eq(request.path.as_slice(), login_path_bytes());
        if is_logged_in && at_login {
            GateDecision::Redirect(vstd::slice::slice_to_vec(home_path_bytes()))
        } else if !is_logged_in && !at_login {
            GateDecision::Redirect(vstd::slice::slice_to_vec(login_path_bytes()))
        } else {
            GateDecision::Forward
        }
    }
}

/// Builds the login gate, ready to be attached to a pipeline.
pub fn login_middleware() -> Login {
    Login
}

} // verus!
