//! Request-authorization and session-state core of a role-gated time
//! tracking web application.
//!
//! The library models the pipeline a request passes through: a session
//! codec that seals a user identity into a tamper-evident cookie, a login
//! gate that redirects unauthenticated traffic, an authority gate that
//! enforces per-route role requirements, and the composition that wires
//! the gates around route handlers in a fixed order.

pub mod authority;
pub mod codec;
pub mod config;
pub mod cookies;
pub mod hexcode;
pub mod middleware;
pub mod pages;
pub mod request;
pub mod routes;
pub mod wire;

use vstd::prelude::*;

verus! {

/// Compares two byte slices for equality, element by element.
pub fn bytes_eq(a: &[u8], b: &[u8]) -> (r: bool)
    ensures
        r == (a@ == b@),
{
    if a.len() != b.len() {
        assert(a@.len() != b@.len());
        return false;
    }
    let mut i: usize = 0;
    while i < a.len()
        invariant
            0 <= i <= a@.len(),
            a@.len() == b@.len(),
            forall|j: int| 0 <= j < i ==> a@[j] == b@[j],
        decreases a@.len() - i,
    {
        if a[i] != b[i] {
            assert(a@[i as int] != b@[i as int]);
            return false;
        }
        i += 1;
    }
    assert(a@ =~= b@);
    true
}

} // verus!
