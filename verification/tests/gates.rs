//! The gates and their composition, exercised over concrete requests.

use time_tracker::middleware::authority::{authority_middleware, AuthorityMiddleware};
use time_tracker::middleware::login::{login_middleware, LoginMiddleware};
use time_tracker::middleware::session::session_middleware;
use time_tracker::pages::index::UserInfo;
use time_tracker::request::{GateDecision, Request, Response};
use time_tracker::routes::dispatch;

fn request(path: &str, cookie: Option<&str>) -> Request {
    Request {
        path: path.as_bytes().to_vec(),
        cookie_header: cookie.map(|c| c.as_bytes().to_vec()),
    }
}

fn handler_response() -> Response {
    Response { status: 200, location: None, cookies: Vec::new() }
}

fn user(authority: Option<&str>) -> UserInfo {
    UserInfo {
        id: 7,
        username: Some("alice".to_string()),
        email: Some("alice@example.com".to_string()),
        authority: authority.map(|a| a.to_string()),
    }
}

fn assert_redirect(r: &Response, location: &str) {
    assert_eq!(r.status, 302);
    assert_eq!(r.location.as_deref(), Some(location.as_bytes()));
}

#[test]
fn login_gate_redirects_unauthenticated_to_login() {
    let gate: LoginMiddleware = login_middleware().new_transform();
    let d = gate.call(&request("/home", None));
    assert!(matches!(d, GateDecision::Redirect(l) if l == b"/login".to_vec()));
}

#[test]
fn login_gate_redirects_authenticated_away_from_login() {
    let gate = login_middleware().new_transform();
    let d = gate.call(&request("/login", Some("token=abc")));
    assert!(matches!(d, GateDecision::Redirect(l) if l == b"/home".to_vec()));
}

#[test]
fn login_gate_forwards_login_page_when_unauthenticated() {
    let gate = login_middleware().new_transform();
    let d = gate.call(&request("/login", None));
    assert!(matches!(d, GateDecision::Forward));
}

#[test]
fn login_gate_forwards_authenticated_elsewhere() {
    let gate = login_middleware().new_transform();
    let d = gate.call(&request("/home", Some("token=abc")));
    assert!(matches!(d, GateDecision::Forward));
}

#[test]
fn empty_token_value_counts_as_logged_out() {
    let gate = login_middleware().new_transform();
    let d = gate.call(&request("/home", Some("token=")));
    assert!(matches!(d, GateDecision::Redirect(l) if l == b"/login".to_vec()));
    let d = gate.call(&request("/home", Some("token=   ")));
    assert!(matches!(d, GateDecision::Redirect(l) if l == b"/login".to_vec()));
}

#[test]
fn token_found_among_other_cookies() {
    let gate = login_middleware().new_transform();
    let d = gate.call(&request("/home", Some("theme=dark; token=abc; lang=de")));
    assert!(matches!(d, GateDecision::Forward));
    let d = gate.call(&request("/home", Some("theme=dark;  token = abc ")));
    assert!(matches!(d, GateDecision::Forward));
}

#[test]
fn lookalike_cookie_names_do_not_count() {
    let gate = login_middleware().new_transform();
    let d = gate.call(&request("/home", Some("xtoken=abc")));
    assert!(matches!(d, GateDecision::Redirect(l) if l == b"/login".to_vec()));
    let d = gate.call(&request("/home", Some("TOKEN=abc")));
    assert!(matches!(d, GateDecision::Redirect(l) if l == b"/login".to_vec()));
    let d = gate.call(&request("/home", Some("token")));
    assert!(matches!(d, GateDecision::Redirect(l) if l == b"/login".to_vec()));
}

#[test]
fn token_value_read_up_to_second_equals() {
    // The value between the first and second `=` decides; "token==" has an
    // empty value there.
    let gate = login_middleware().new_transform();
    let d = gate.call(&request("/home", Some("token==x")));
    assert!(matches!(d, GateDecision::Redirect(l) if l == b"/login".to_vec()));
    let d = gate.call(&request("/home", Some("token=a=b")));
    assert!(matches!(d, GateDecision::Forward));
}

#[test]
fn authority_gate_forwards_matching_role() {
    let svc = authority_middleware("ADMINISTRATOR").new_transform();
    let admin = user(Some("ADMINISTRATOR"));
    assert!(matches!(svc.call(Some(&admin)), GateDecision::Forward));
}

#[test]
fn authority_gate_redirects_mismatched_role() {
    let svc = authority_middleware("ADMINISTRATOR").new_transform();
    let employee = user(Some("EMPLOYEE"));
    let d = svc.call(Some(&employee));
    assert!(matches!(d, GateDecision::Redirect(l) if l == b"/home".to_vec()));
}

#[test]
fn authority_gate_defaults_missing_role_to_employee() {
    let svc = authority_middleware("ADMINISTRATOR").new_transform();
    let no_role = user(None);
    let d = svc.call(Some(&no_role));
    assert!(matches!(d, GateDecision::Redirect(l) if l == b"/home".to_vec()));
    let d = svc.call(None);
    assert!(matches!(d, GateDecision::Redirect(l) if l == b"/home".to_vec()));
}

#[test]
fn authority_gate_redirects_unknown_role() {
    let svc = authority_middleware("ADMINISTRATOR").new_transform();
    let guest = user(Some("GUEST"));
    let d = svc.call(Some(&guest));
    assert!(matches!(d, GateDecision::Redirect(l) if l == b"/home".to_vec()));
}

#[test]
fn employee_gate_admits_employee() {
    let svc = AuthorityMiddleware::new("EMPLOYEE").new_transform();
    let employee = user(Some("EMPLOYEE"));
    assert!(matches!(svc.call(Some(&employee)), GateDecision::Forward));
    // No hierarchy: an administrator does not satisfy an employee gate.
    let admin = user(Some("ADMINISTRATOR"));
    assert!(matches!(svc.call(Some(&admin)), GateDecision::Redirect(_)));
}

#[test]
fn admin_request_without_token_redirects_to_login() {
    let r = dispatch(&request("/admin/users", None), None, handler_response());
    assert_redirect(&r, "/login");
    let r = dispatch(&request("/admin", None), None, handler_response());
    assert_redirect(&r, "/login");
}

#[test]
fn admin_request_as_employee_redirects_home() {
    let employee = user(Some("EMPLOYEE"));
    let r = dispatch(
        &request("/admin/users", Some("token=abc")),
        Some(&employee),
        handler_response(),
    );
    assert_redirect(&r, "/home");
}

#[test]
fn admin_request_as_administrator_reaches_handler() {
    let admin = user(Some("ADMINISTRATOR"));
    let handler = Response {
        status: 201,
        location: None,
        cookies: Vec::new(),
    };
    let r = dispatch(
        &request("/admin/users", Some("token=abc")),
        Some(&admin),
        handler,
    );
    assert_eq!(r.status, 201);
    assert!(r.location.is_none());
}

#[test]
fn non_admin_path_skips_authority_gate() {
    // An employee reaches non-administrative handlers untouched.
    let employee = user(Some("EMPLOYEE"));
    let r = dispatch(
        &request("/home", Some("token=abc")),
        Some(&employee),
        handler_response(),
    );
    assert_eq!(r.status, 200);
}

#[test]
fn admin_prefix_requires_a_path_boundary() {
    // "/administrator" is not inside the /admin subtree; with no session
    // the login gate still redirects, but an administrator session shows
    // the authority gate was skipped.
    let employee = user(Some("EMPLOYEE"));
    let r = dispatch(
        &request("/administrator", Some("token=abc")),
        Some(&employee),
        handler_response(),
    );
    assert_eq!(r.status, 200);
}

#[test]
fn logout_then_home_redirects_to_login() {
    // The cleared cookie travels back as an empty-valued token pair.
    let r = time_tracker::pages::logout::logout(&request("/logout", Some("token=abc")));
    assert!(r.cookies[0].value.is_empty());
    let next = request("/home", Some("token="));
    let after = dispatch(&next, None, handler_response());
    assert_redirect(&after, "/login");
}

#[test]
fn session_cookie_policy_is_strict() {
    let s = session_middleware();
    assert_eq!(s.cookie_name, "token");
    assert!(!s.cookie_secure);
    assert!(s.browser_session);
    assert!(s.same_site_strict);
    assert!(s.private_content);
    assert!(s.http_only);
}
