//! The request interceptors: the login gate, the authority gate, and the
//! session cookie policy they are composed with.

pub mod authority;
pub mod login;
pub mod session;
