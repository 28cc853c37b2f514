//! The logout operation.
//!
//! Logging out answers with a redirect to the login page and, when the
//! request carried a `token` cookie, reissues that cookie with an empty
//! value and a max-age of zero so the client discards it at once.

use vstd::prelude::*;

use crate::cookies::{has_token_pair, header_has_token_pair, token_name};
use crate::request::{
    found_status, login_path, login_path_bytes, Request, RequestV, Response, ResponseV, SetCookie,
    SetCookieV,
};

verus! {

/// The cookie that clears the session: the `token` cookie reissued with an
/// empty value and zero max-age, on the root path.
pub open spec fn cleared_token_cookie() -> SetCookieV {
    SetCookieV {
        name: token_name(),
        value: Seq::empty(),
        path: seq![47u8],
        http_only: true,
        max_age_seconds: Some(0i64),
    }
}

/// Whether a request carries any `token` cookie pair, even an empty one.
pub open spec fn carries_token_cookie(req: RequestV) -> bool {
    match req.cookie_header {
        Some(h) => header_has_token_pair(h),
        None => false,
    }
}

/// The logout response: a redirect to the login page, clearing the `token`
/// cookie exactly when the request carried one.
pub open spec fn logout_spec(req: RequestV) -> ResponseV {
    ResponseV {
        status: found_status(),
        location: Some(login_path()),
        cookies: if carries_token_cookie(req) {
            seq![cleared_token_cookie()]
        } else {
            Seq::empty()
        },
    }
}

/// Answers a logout request: redirects to the login page and clears the
/// `token` cookie when the request carried one.
pub fn logout(request: &Request) -> (r: Response)
    ensures
        r@ == logout_spec(request@),
{
    let has_cookie = match &request.cookie_header {
        Some(h) => has_token_pair(h.as_slice()),
        None => false,
    };
    let mut cookies: Vec<SetCookie> = Vec::new();
    if has_cookie {
        let token = "token";
        proof {
            reveal_strlit("token");
            reveal_strlit("/");
            broadcast use vstd::string::is_ascii_spec_bytes;

            assert(vstd::string::is_ascii(token));
            assert(vstd::string::is_ascii("/"));
        }
        let cookie = SetCookie {
            name: vstd::slice::slice_to_vec(token.as_bytes()),
            value: Vec::new(),
            path: vstd::slice::slice_to_vec("/".as_bytes()),
            http_only: true,
            max_age_seconds: Some(0i64),
        };
        proof {
            assert(cookie@.name =~= token_name());
            assert(cookie@.value =~= Seq::<u8>::empty());
            assert(cookie@.path =~= seq![47u8]);
            assert(cookie@ == cleared_token_cookie());
        }
        cookies.push(cookie);
    }
    let r = Response {
        status: 302,
        location: Some(vstd::slice::slice_to_vec(login_path_bytes())),
        cookies,
    };
    proof {
        if carries_token_cookie(request@) {
            assert(r@.cookies =~= seq![cleared_token_cookie()]);
        } else {
            assert(r@.cookies =~= Seq::<SetCookieV>::empty());
        }
        assert(r@ =~= logout_spec(request@));
    }
    r
}

} // verus!
