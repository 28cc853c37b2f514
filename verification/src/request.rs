//! The plain request and response model the gates operate on.
//!
//! A request is reduced to what the pipeline inspects: its path and its
//! raw `Cookie` header, both as bytes.  A response carries the status, an
//! optional `Location` header and the cookies it sets.  A gate either
//! forwards a request unchanged or short-circuits with a redirect.

use vstd::prelude::*;

verus! {

/// The parts of an incoming request that the gates inspect.
pub struct Request {
    /// The request path, e.g. `/home`.
    pub path: Vec<u8>,
    /// The raw `Cookie` header, if the request carries one.
    pub cookie_header: Option<Vec<u8>>,
}

/// Mathematical image of a `Request`.
pub struct RequestV {
    pub path: Seq<u8>,
    pub cookie_header: Option<Seq<u8>>,
}

impl View for Request {
    type V = RequestV;

    open spec fn view(&self) -> RequestV {
        RequestV {
            path: self.path@,
            cookie_header: match self.cookie_header {
                Some(ref h) => Some(h@),
                None => None,
            },
        }
    }
}

/// A cookie attached to a response.
pub struct SetCookie {
    pub name: Vec<u8>,
    pub value: Vec<u8>,
    pub path: Vec<u8>,
    pub http_only: bool,
    /// `Some(0)` clears the cookie immediately; `None` leaves it a
    /// browser-session cookie.
    pub max_age_seconds: Option<i64>,
}

/// Mathematical image of a `SetCookie`.
pub struct SetCookieV {
    pub name: Seq<u8>,
    pub value: Seq<u8>,
    pub path: Seq<u8>,
    pub http_only: bool,
    pub max_age_seconds: Option<i64>,
}

impl View for SetCookie {
    type V = SetCookieV;

    open spec fn view(&self) -> SetCookieV {
        SetCookieV {
            name: self.name@,
            value: self.value@,
            path: self.path@,
            http_only: self.http_only,
            max_age_seconds: self.max_age_seconds,
        }
    }
}

/// An outgoing response, reduced to what the pipeline produces or passes
/// through.
pub struct Response {
    /// HTTP status code.
    pub status: u16,
    /// The `Location` header, present on redirects.
    pub location: Option<Vec<u8>>,
    /// Cookies set by this response.
    pub cookies: Vec<SetCookie>,
}

/// Mathematical image of a `Response`.
pub struct ResponseV {
    pub status: u16,
    pub location: Option<Seq<u8>>,
    pub cookies: Seq<SetCookieV>,
}

impl View for Response {
    type V = ResponseV;

    open spec fn view(&self) -> ResponseV {
        ResponseV {
            status: self.status,
            location: match self.location {
                Some(ref l) => Some(l@),
                None => None,
            },
            cookies: Seq::new(self.cookies@.len(), |i: int| self.cookies@[i]@),
        }
    }
}

/// The status code of a `Found` redirect.
pub open spec fn found_status() -> u16 {
    302
}

/// The image of a plain redirect response to `location`.
pub open spec fn redirect_spec(location: Seq<u8>) -> ResponseV {
    ResponseV { status: found_status(), location: Some(location), cookies: Seq::empty() }
}

/// Builds a `Found` redirect to `location`, with no cookies.
pub fn redirect_found(location: Vec<u8>) -> (r: Response)
    ensures
        r@ == redirect_spec(location@),
{
    let r = Response { status: 302, location: Some(location), cookies: Vec::new() };
    proof {
        assert(r@.cookies =~= Seq::<SetCookieV>::empty());
        assert(r@ =~= redirect_spec(r.location->0@));
    }
    r
}

/// What a gate decides for a request: hand it on, or answer directly with
/// a redirect and never invoke the next stage.
pub enum GateDecision {
    Forward,
    Redirect(Vec<u8>),
}

/// Mathematical image of a `GateDecision`.
pub enum GateDecisionV {
    Forward,
    Redirect(Seq<u8>),
}

impl View for GateDecision {
    type V = GateDecisionV;

    open spec fn view(&self) -> GateDecisionV {
        match self {
            GateDecision::Forward => GateDecisionV::Forward,
            GateDecision::Redirect(l) => GateDecisionV::Redirect(l@),
        }
    }
}

/// The byte sequence of the login path `/login`.
pub open spec fn login_path() -> Seq<u8> {
    seq![47u8, 108u8, 111u8, 103u8, 105u8, 110u8]
}

/// The byte sequence of the home path `/home`.
pub open spec fn home_path() -> Seq<u8> {
    seq![47u8, 104u8, 111u8, 109u8, 101u8]
}

/// The byte sequence of the administrative subtree prefix `/admin`.
pub open spec fn admin_prefix() -> Seq<u8> {
    seq![47u8, 97u8, 100u8, 109u8, 105u8, 110u8]
}

/// The login path as a byte slice.
pub fn login_path_bytes() -> (r: &'static [u8])
    ensures
        r@ == login_path(),
{
    let s = "/login";
    proof {
        reveal_strlit("/login");
        broadcast use vstd::string::is_ascii_spec_bytes;

        assert(vstd::string::is_ascii(s));
    }
    let b = s.as_bytes();
    proof {
        assert(b@ =~= login_path());
    }
    b
}

/// The home path as a byte slice.
pub fn home_path_bytes() -> (r: &'static [u8])
    ensures
        r@ == home_path(),
{
    let s = "/home";
    proof {
        reveal_strlit("/home");
        broadcast use vstd::string::is_ascii_spec_bytes;

        assert(vstd::string::is_ascii(s));
    }
    let b = s.as_bytes();
    proof {
        assert(b@ =~= home_path());
    }
    b
}

/// The administrative prefix as a byte slice.
pub fn admin_prefix_bytes() -> (r: &'static [u8])
    ensures
        r@ == admin_prefix(),
{
    let s = "/admin";
    proof {
        reveal_strlit("/admin");
        broadcast use vstd::string::is_ascii_spec_bytes;

        assert(vstd::string::is_ascii(s));
    }
    let b = s.as_bytes();
    proof {
        assert(b@ =~= admin_prefix());
    }
    b
}

/// Whether a path lies in the administrative subtree: `/admin` itself or
/// any path below it.
pub open spec fn is_admin_path(path: Seq<u8>) -> bool {
    &&& path.len() >= admin_prefix().len()
    &&& path.take(admin_prefix().len() as int) == admin_prefix()
    &&& (path.len() == admin_prefix().len() || path[admin_prefix().len() as int] == 47)
}

/// Decides whether a path lies in the administrative subtree.
pub fn is_admin_path_exec(path: &[u8]) -> (r: bool)
    ensures
        r == is_admin_path(path@),
{
    let prefix = admin_prefix_bytes();
    if path.len() < prefix.len() {
        return false;
    }
    let head = vstd::slice::slice_subrange(path, 0, prefix.len());
    proof {
        assert(head@ =~= path@.take(admin_prefix().len() as int));
    }
    if !crate::bytes_eq(head, prefix) {
        return false;
    }
    path.len() == prefix.len() || *vstd::slice::slice_index_get(path, prefix.len()) == 47
}

} // verus!
