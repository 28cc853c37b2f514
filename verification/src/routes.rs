//! The route composition.
//!
//! The pipeline nests the authority gate inside the administrative
//! subtree, itself inside the login gate, so that for every request the
//! login gate is evaluated first, the authority gate is evaluated only for
//! administrative paths and only after the login gate forwarded, and the
//! handler runs only when every gate on the way forwarded.  `dispatch`
//! takes the handler's response as a value; when a gate short-circuits,
//! the result is that redirect whatever the value held; that is the
//! sense in which "the handler is never invoked" is stated here.

use vstd::prelude::*;

use crate::middleware::authority::{authority_gate, authority_middleware, opt_user_view};
use crate::middleware::login::{is_logged_in, login_gate, login_middleware};
use crate::pages::index::{UserInfo, UserInfoV};
use crate::request::{
    admin_prefix, home_path, is_admin_path, is_admin_path_exec, login_path, redirect_found,
    redirect_spec, GateDecision, GateDecisionV, Request, RequestV, Response, ResponseV,
};

verus! {

/// The role required of a session inside the administrative subtree.
pub open spec fn required_admin_authority() -> Seq<char> {
    "ADMINISTRATOR"@
}

/// What the composed pipeline answers: the login gate's redirect if it
/// short-circuits; otherwise, on an administrative path, the authority
/// gate's redirect if that one short-circuits; otherwise whatever the
/// handler produced.
pub open spec fn dispatch_spec(
    req: RequestV,
    session: Option<UserInfoV>,
    handler: ResponseV,
) -> ResponseV {
    match login_gate(req.path, req.cookie_header) {
        GateDecisionV::Redirect(loc) => redirect_spec(loc),
        GateDecisionV::Forward => if is_admin_path(req.path) {
            match authority_gate(session, required_admin_authority()) {
                GateDecisionV::Redirect(loc) => redirect_spec(loc),
                GateDecisionV::Forward => handler,
            }
        } else {
            handler
        },
    }
}

/// Runs one request through the composed pipeline.
///
/// `session` is the identity decoded from the session cookie, if any, and
/// `handler` is the response the routed handler would produce; it is
/// returned unchanged exactly when every gate forwards.
pub fn dispatch(request: &Request, session: Option<&UserInfo>, handler: Response) -> (r: Response)
    ensures
        r@ == dispatch_spec(request@, opt_user_view(session), handler@),
{
    let login_gate_service = login_middleware().new_transform();
    match login_gate_service.call(request) {
        GateDecision::Redirect(loc) => redirect_found(loc),
        GateDecision::Forward => {
            if is_admin_path_exec(request.path.as_slice()) {
                let authority_service = authority_middleware("ADMINISTRATOR").new_transform();
                match authority_service.call(session) {
                    GateDecision::Redirect(loc) => redirect_found(loc),
                    GateDecision::Forward => handler,
                }
            } else {
                handler
            }
        },
    }
}

/// Runs one request through the whole pipeline, session decode included:
/// the session identity is read from the request's own `token` cookie
/// under the process key, and the gates then decide as in `dispatch`.
pub fn handle_request(
    request: &Request,
    key: &crate::codec::SessionKey,
    handler: Response,
) -> (r: Response)
    ensures
        r@ == dispatch_spec(
            request@,
            crate::codec::spec_request_session(key.secret(), request@),
            handler@,
        ),
{
    let session = crate::codec::session_from_request(request, key);
    dispatch(request, session.as_ref(), handler)
}

/// An administrative path is never the login path: they differ in their
/// second byte.
proof fn lemma_admin_path_not_login(path: Seq<u8>)
    requires
        is_admin_path(path),
    ensures
        path != login_path(),
{
    assert(path.take(admin_prefix().len() as int)[1] == path[1]);
    assert(path[1] == 97);
    assert(login_path()[1] == 108);
}

/// A request into the administrative subtree that does not count as
/// logged in — no cookie header, or no non-empty `token` entry — is
/// answered with a redirect to the login page; the handler's response does
/// not enter the result.
pub proof fn lemma_admin_without_token_redirects_to_login(
    req: RequestV,
    session: Option<UserInfoV>,
    handler: ResponseV,
)
    requires
        is_admin_path(req.path),
        !is_logged_in(req.cookie_header),
    ensures
        dispatch_spec(req, session, handler) == redirect_spec(login_path()),
{
    lemma_admin_path_not_login(req.path);
}

/// The two role strings of the closed enumeration are distinct.
proof fn lemma_role_strings_differ()
    ensures
        "EMPLOYEE"@ != "ADMINISTRATOR"@,
        "ADMINISTRATOR"@ == required_admin_authority(),
{
    reveal_strlit("EMPLOYEE");
    reveal_strlit("ADMINISTRATOR");
    assert("EMPLOYEE"@.len() == 8);
    assert("ADMINISTRATOR"@.len() == 13);
}

/// A logged-in session whose role is `EMPLOYEE` requesting an
/// administrative path is answered with a redirect to the home page; the
/// handler's response does not enter the result.
pub proof fn lemma_employee_denied_admin(req: RequestV, u: UserInfoV, handler: ResponseV)
    requires
        is_admin_path(req.path),
        is_logged_in(req.cookie_header),
        u.authority == Some("EMPLOYEE"@),
    ensures
        dispatch_spec(req, Some(u), handler) == redirect_spec(home_path()),
{
    lemma_admin_path_not_login(req.path);
    lemma_role_strings_differ();
}

/// A logged-in session whose role is `ADMINISTRATOR` requesting an
/// administrative path passes both gates: the pipeline answers with
/// exactly the handler's response.
pub proof fn lemma_administrator_admitted(req: RequestV, u: UserInfoV, handler: ResponseV)
    requires
        is_admin_path(req.path),
        is_logged_in(req.cookie_header),
        u.authority == Some("ADMINISTRATOR"@),
    ensures
        dispatch_spec(req, Some(u), handler) == handler,
{
    lemma_admin_path_not_login(req.path);
    lemma_role_strings_differ();
}

/// A request for the login page that carries a valid non-empty `token`
/// cookie is answered with a redirect to the home page, whatever the
/// session holds and whatever the handler would have produced.
pub proof fn lemma_login_request_with_token_redirects_home(
    req: RequestV,
    session: Option<UserInfoV>,
    handler: ResponseV,
)
    requires
        req.path == login_path(),
        is_logged_in(req.cookie_header),
    ensures
        dispatch_spec(req, session, handler) == redirect_spec(home_path()),
{
}

/// A request for any path other than the login page whose `token` cookie
/// value is empty after trimming is answered with a redirect to the login
/// page.  The value may carry surrounding whitespace but no pair or list
/// separators.
pub proof fn lemma_empty_token_request_redirects_login(
    path: Seq<u8>,
    value: Seq<u8>,
    session: Option<UserInfoV>,
    handler: ResponseV,
)
    requires
        path != login_path(),
        forall|j: int| 0 <= j < value.len() ==> value[j] != 59 && value[j] != 61,
        crate::cookies::trim(value).len() == 0,
    ensures
        dispatch_spec(
            RequestV {
                path,
                cookie_header: Some(crate::cookies::token_name() + seq![61u8] + value),
            },
            session,
            handler,
        ) == redirect_spec(login_path()),
{
    crate::cookies::lemma_token_header(value);
}

/// After a logout, the client's `token` cookie holds the cleared (empty)
/// value; a following request for the home page carrying that cookie is
/// answered with a redirect to the login page.
pub proof fn lemma_logout_then_home_redirects(
    session: Option<UserInfoV>,
    handler: ResponseV,
)
    ensures
        dispatch_spec(
            RequestV {
                path: home_path(),
                cookie_header: Some(
                    crate::cookies::token_name() + seq![61u8]
                        + crate::pages::logout::cleared_token_cookie().value,
                ),
            },
            session,
            handler,
        ) == redirect_spec(login_path()),
{
    let value = crate::pages::logout::cleared_token_cookie().value;
    assert(value.len() == 0);
    crate::cookies::lemma_token_header(value);
    assert(home_path().len() != login_path().len());
}

} // verus!
