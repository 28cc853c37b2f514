//! The whole pipeline end to end: a sealed cookie travels in a request
//! through session decode and both gates.

use time_tracker::codec::{derive_session_key, encode_session, SessionKey};
use time_tracker::pages::index::UserInfo;
use time_tracker::request::{Request, Response};
use time_tracker::routes::handle_request;

fn key() -> SessionKey {
    derive_session_key(b"an-exercise-secret-of-enough-length-0123456789").unwrap()
}

fn handler() -> Response {
    Response { status: 201, location: None, cookies: Vec::new() }
}

fn request_with_cookie(path: &str, cookie_value: &str) -> Request {
    Request {
        path: path.as_bytes().to_vec(),
        cookie_header: Some(format!("token={}", cookie_value).into_bytes()),
    }
}

fn sealed_identity(authority: &str) -> (SessionKey, String) {
    let k = key();
    let u = UserInfo {
        id: 3,
        username: Some("erin".to_string()),
        email: None,
        authority: Some(authority.to_string()),
    };
    let sealed = encode_session(&u, &k);
    (k, sealed)
}

#[test]
fn administrator_cookie_reaches_admin_handler() {
    let (k, sealed) = sealed_identity("ADMINISTRATOR");
    let r = handle_request(&request_with_cookie("/admin/users", &sealed), &k, handler());
    assert_eq!(r.status, 201);
    assert!(r.location.is_none());
}

#[test]
fn employee_cookie_is_turned_away_from_admin() {
    let (k, sealed) = sealed_identity("EMPLOYEE");
    let r = handle_request(&request_with_cookie("/admin/users", &sealed), &k, handler());
    assert_eq!(r.status, 302);
    assert_eq!(r.location.as_deref(), Some(b"/home".as_slice()));
}

#[test]
fn tampered_cookie_defaults_to_employee_at_the_admin_gate() {
    // The login gate sees a non-empty token, but the identity no longer
    // opens; the authority gate then treats the session as
    // lowest-privilege and turns it away.
    let (k, sealed) = sealed_identity("ADMINISTRATOR");
    let mut bytes = sealed.into_bytes();
    bytes[0] ^= 1;
    let tampered = String::from_utf8_lossy(&bytes).into_owned();
    let r = handle_request(&request_with_cookie("/admin/users", &tampered), &k, handler());
    assert_eq!(r.status, 302);
    assert_eq!(r.location.as_deref(), Some(b"/home".as_slice()));
}

#[test]
fn cookieless_request_never_reaches_the_admin_gate() {
    let k = key();
    let r = handle_request(
        &Request { path: b"/admin/users".to_vec(), cookie_header: None },
        &k,
        handler(),
    );
    assert_eq!(r.status, 302);
    assert_eq!(r.location.as_deref(), Some(b"/login".as_slice()));
}

#[test]
fn sealed_cookie_with_other_cookies_still_opens() {
    let (k, sealed) = sealed_identity("ADMINISTRATOR");
    let header = format!("theme=dark; token={}; lang=de", sealed);
    let req = Request {
        path: b"/admin/users".to_vec(),
        cookie_header: Some(header.into_bytes()),
    };
    let r = handle_request(&req, &k, handler());
    assert_eq!(r.status, 201);
}

#[test]
fn sealed_cookie_on_home_passes_the_login_gate() {
    let (k, sealed) = sealed_identity("EMPLOYEE");
    let r = handle_request(&request_with_cookie("/home", &sealed), &k, handler());
    assert_eq!(r.status, 201);
}
