//! The closed role set and the comparator that the authority gate relies on.
//!
//! A role is carried through the session as a string; it is meaningful only
//! when it parses into the two-value enumeration below.  The comparator
//! checks exact equality of parsed roles: there is no hierarchy, so an
//! administrator does not implicitly satisfy an employee-only requirement.

use vstd::prelude::*;

verus! {

/// The closed enumeration of roles a user can hold.
#[derive(Clone, Copy, Debug, PartialEq, Eq, Structural)]
pub enum Authority {
    Employee,
    Administrator,
}

/// The outcomes under which `check_authority` refuses a pair of role strings.
#[derive(Clone, Copy, Debug, PartialEq, Eq, Structural)]
pub enum AuthorityError {
    /// The user's role string is outside the closed enumeration.
    InvalidUserAuthority,
    /// The required role string is outside the closed enumeration.
    InvalidRequiredAuthority,
    /// Both strings parse, but to different roles.
    NotAuthorized,
}

/// What a role string parses to, if anything.
pub open spec fn authority_from_chars(s: Seq<char>) -> Option<Authority> {
    if s == "EMPLOYEE"@ {
        Some(Authority::Employee)
    } else if s == "ADMINISTRATOR"@ {
        Some(Authority::Administrator)
    } else {
        None
    }
}

impl Authority {
    /// Parses a role string against the closed enumeration.
    pub fn from_str(s: &String) -> (r: Option<Authority>)
        ensures
            r == authority_from_chars(s@),
    {
        if *s == "EMPLOYEE".to_owned() {
            Some(Authority::Employee)
        } else if *s == "ADMINISTRATOR".to_owned() {
            Some(Authority::Administrator)
        } else {
            None
        }
    }
}

/// The comparator's result on a pair of role strings: success exactly when
/// both parse and are equal, and otherwise the error naming what failed.
pub open spec fn check_authority_spec(user: Seq<char>, required: Seq<char>) -> Result<
    (),
    AuthorityError,
> {
    match authority_from_chars(user) {
        None => Err(AuthorityError::InvalidUserAuthority),
        Some(u) => match authority_from_chars(required) {
            None => Err(AuthorityError::InvalidRequiredAuthority),
            Some(r) => if u == r {
                Ok(())
            } else {
                Err(AuthorityError::NotAuthorized)
            },
        },
    }
}

/// Checks whether a user's role satisfies a required role, by exact equality
/// over the closed enumeration.  A string outside the enumeration is an
/// error, never silently coerced.
pub fn check_authority(user_authority: &String, required_authority: &String) -> (r: Result<
    (),
    AuthorityError,
>)
    ensures
        r == check_authority_spec(user_authority@, required_authority@),
{
    let user = match Authority::from_str(user_authority) {
        Some(u) => u,
        None => return Err(AuthorityError::InvalidUserAuthority),
    };
    let required = match Authority::from_str(required_authority) {
        Some(r) => r,
        None => return Err(AuthorityError::InvalidRequiredAuthority),
    };
    if user == required {
        Ok(())
    } else {
        Err(AuthorityError::NotAuthorized)
    }
}

impl AuthorityError {
    /// A human-readable description of the failure.
    pub fn message(&self) -> (r: &'static str)
        ensures
            *self is InvalidUserAuthority ==> r@ == "Invalid user authority"@,
            *self is InvalidRequiredAuthority ==> r@ == "Invalid required authority"@,
            *self is NotAuthorized ==> r@ == "User does not have the required authority"@,
    {
        match self {
            AuthorityError::InvalidUserAuthority => "Invalid user authority",
            AuthorityError::InvalidRequiredAuthority => "Invalid required authority",
            AuthorityError::NotAuthorized => "User does not have the required authority",
        }
    }
}

} // verus!
