//! The login page's decision.
//!
//! Verifying credentials is the store's concern.  Given its verdict —
//! the loaded profile on success, nothing otherwise — the page either
//! issues a fresh session cookie and redirects home, or shows the login
//! form again.

use vstd::prelude::*;
use vstd::utf8::{decode_utf8, encode_utf8, encode_utf8_decode_utf8, valid_utf8};

use crate::codec::{encode_session, payload_chars, token_cookie_chars, unsealed, SessionKey};
use crate::cookies::token_name;
use crate::pages::index::{UserInfo, UserInfoV};
use crate::request::{
    found_status, home_path, home_path_bytes, Response, SetCookie,
};
use crate::wire::identity_wf;

verus! {

/// The credentials a login attempt carries.
pub struct LoginRequest {
    pub username: String,
    pub password: String,
}

/// Answers a login attempt, given the profile the store verified the
/// credentials against.
///
/// On success the response redirects home and carries one freshly sealed
/// `token` cookie whose value opens, under the same key, to exactly the
/// user's identity payload.  On failure the response shows the login form
/// again (status 200, no redirect) and sets no cookie.
pub fn login_response(user: Option<&UserInfo>, key: &SessionKey) -> (r: Response)
    ensures
        match user {
            None => r@.status == 200 && r@.location is None && r@.cookies.len() == 0,
            Some(u) => {
                &&& r@.status == found_status()
                &&& r@.location == Some(home_path())
                &&& r@.cookies.len() == 1
                &&& r@.cookies[0].name == token_name()
                &&& r@.cookies[0].http_only
                &&& r@.cookies[0].max_age_seconds is None
                &&& valid_utf8(r@.cookies[0].value)
                &&& unsealed(key.secret(), token_cookie_chars(), decode_utf8(r@.cookies[0].value))
                    == Some(payload_chars(u@))
                &&& identity_wf(u@)
            },
        },
{
    match user {
        None => {
            let r = Response { status: 200, location: None, cookies: Vec::new() };
            proof {
                assert(r@.cookies.len() == 0);
            }
            r
        },
        Some(u) => {
            let sealed = encode_session(u, key);
            let token = "token";
            proof {
                reveal_strlit("token");
                reveal_strlit("/");
                broadcast use vstd::string::is_ascii_spec_bytes;

                assert(vstd::string::is_ascii(token));
                assert(vstd::string::is_ascii("/"));
            }
            let cookie = SetCookie {
                name: vstd::slice::slice_to_vec(token.as_bytes()),
                value: vstd::slice::slice_to_vec(sealed.as_str().as_bytes()),
                path: vstd::slice::slice_to_vec("/".as_bytes()),
                http_only: true,
                max_age_seconds: None,
            };
            proof {
                assert(cookie@.name =~= token_name());
                assert(cookie@.value == encode_utf8(sealed@));
                vstd::utf8::encode_utf8_valid_utf8(sealed@);
                encode_utf8_decode_utf8(sealed@);
            }
            let mut cookies: Vec<SetCookie> = Vec::new();
            cookies.push(cookie);
            let r = Response {
                status: 302,
                location: Some(vstd::slice::slice_to_vec(home_path_bytes())),
                cookies,
            };
            proof {
                assert(r@.cookies.len() == 1);
                assert(r@.cookies[0].name == token_name());
            }
            r
        },
    }
}

} // verus!
