//! The settings page's decisions: password and email changes.
//!
//! The checks themselves are pure: whether a password is strong enough,
//! whether an email is well-formed, and in which order a change request
//! is refused.  Storage and rendering stay outside.

use vstd::prelude::*;
use vstd::string::StringSliceAdditionalSpecFns;

verus! {

/// A request to change the password.
pub struct PasswordChangeRequest {
    pub current_password: String,
    pub new_password: String,
    pub confirm_password: String,
}

/// A request to change the email address.
pub struct EmailChangeRequest {
    pub new_email: String,
}

/// An ASCII lowercase letter.
pub open spec fn is_lower_byte(b: u8) -> bool {
    97 <= b <= 122
}

/// An ASCII uppercase letter.
pub open spec fn is_upper_byte(b: u8) -> bool {
    65 <= b <= 90
}

/// An ASCII decimal digit.
pub open spec fn is_digit_byte(b: u8) -> bool {
    48 <= b <= 57
}

/// A strong password over its UTF-8 bytes: at least eight bytes long,
/// with at least one lowercase letter, one uppercase letter, and one
/// digit.
pub open spec fn strong_password(b: Seq<u8>) -> bool {
    &&& b.len() >= 8
    &&& exists|i: int| 0 <= i < b.len() && is_lower_byte(#[trigger] b[i])
    &&& exists|i: int| 0 <= i < b.len() && is_upper_byte(#[trigger] b[i])
    &&& exists|i: int| 0 <= i < b.len() && is_digit_byte(#[trigger] b[i])
}

/// Checks whether a password is strong: at least eight bytes with a
/// lowercase letter, an uppercase letter, and a digit among them.
pub fn is_strong_password(password: &str) -> (r: bool)
    ensures
        r == strong_password(password.spec_bytes()),
{
    let b = password.as_bytes();
    if b.len() < 8 {
        return false;
    }
    let mut has_lower = false;
    let mut has_upper = false;
    let mut has_digit = false;
    let mut i: usize = 0;
    while i < b.len()
        invariant
            0 <= i <= b@.len(),
            has_lower == exists|j: int| 0 <= j < i && is_lower_byte(#[trigger] b@[j]),
            has_upper == exists|j: int| 0 <= j < i && is_upper_byte(#[trigger] b@[j]),
            has_digit == exists|j: int| 0 <= j < i && is_digit_byte(#[trigger] b@[j]),
        decreases b@.len() - i,
    {
        let c = b[i];
        if 97 <= c && c <= 122 {
            has_lower = true;
        }
        if 65 <= c && c <= 90 {
            has_upper = true;
        }
        if 48 <= c && c <= 57 {
            has_digit = true;
        }
        i += 1;
    }
    has_lower && has_upper && has_digit
}

/// A byte allowed in the local part of an email address.
pub open spec fn is_local_byte(b: u8) -> bool {
    ||| is_lower_byte(b)
    ||| is_upper_byte(b)
    ||| is_digit_byte(b)
    ||| b == 46
    ||| b == 95
    ||| b == 37
    ||| b == 43
    ||| b == 45
}

/// A byte allowed in the domain part of an email address, before its last
/// dot.
pub open spec fn is_domain_byte(b: u8) -> bool {
    ||| is_lower_byte(b)
    ||| is_upper_byte(b)
    ||| is_digit_byte(b)
    ||| b == 46
    ||| b == 45
}

/// An ASCII letter.
pub open spec fn is_alpha_byte(b: u8) -> bool {
    is_lower_byte(b) || is_upper_byte(b)
}

/// A well-formed email over its UTF-8 bytes: a non-empty local part of
/// local bytes, one `@`, a non-empty domain of domain bytes, and a final
/// dot followed by at least two letters.
pub open spec fn valid_email(b: Seq<u8>) -> bool {
    exists|a: int, d: int| email_witness(b, a, d)
}

/// Checks whether an email address is well-formed: local part, `@`,
/// domain, and a final dot with at least a two-letter ending.
pub fn is_valid_email(email: &str) -> (r: bool)
    ensures
        r == valid_email(email.spec_bytes()),
{
    let b = email.as_bytes();
    // Find the first `@`; a well-formed address has exactly one.
    let mut a: usize = 0;
    while a < b.len() && b[a] != 64
        invariant
            0 <= a <= b@.len(),
            forall|j: int| 0 <= j < a ==> b@[j] != 64,
        decreases b@.len() - a,
    {
        a += 1;
    }
    if a == b.len() {
        proof {
            assert forall|x: int, d: int| !email_witness(b@, x, d) by {
                if 0 <= x < b@.len() {
                    assert(b@[x] != 64);
                }
            }
        }
        return false;
    }
    // Check the local part: non-empty, all local bytes.
    if a == 0 {
        proof {
            assert forall|x: int, d: int| !email_witness(b@, x, d) by {
                if email_witness(b@, x, d) {
                    assert(is_local_byte(b@[0]));
                }
            }
        }
        return false;
    }
    let mut j: usize = 0;
    while j < a
        invariant
            0 <= j <= a < b@.len(),
            b@[a as int] == 64,
            forall|k: int| 0 <= k < a ==> b@[k] != 64,
            forall|k: int| 0 <= k < j ==> is_local_byte(#[trigger] b@[k]),
            b@ == email.spec_bytes(),
        decreases a - j,
    {
        let c = b[j];
        if !(97 <= c && c <= 122 || 65 <= c && c <= 90 || 48 <= c && c <= 57 || c == 46 || c == 95
            || c == 37 || c == 43 || c == 45) {
            proof {
                lemma_at_unique(b@, a as int);
                assert forall|x: int, d: int| !email_witness(b@, x, d) by {
                    if email_witness(b@, x, d) {
                        assert(x == a);
                        assert(is_local_byte(b@[j as int]));
                    }
                }
            }
            return false;
        }
        j += 1;
    }
    // Find the last dot.
    let mut d: usize = b.len();
    while d > 0 && b[d - 1] != 46
        invariant
            0 <= d <= b@.len(),
            forall|k: int| d <= k < b@.len() ==> b@[k] != 46,
        decreases d,
    {
        d -= 1;
    }
    if d == 0 {
        proof {
            assert forall|x: int, dd: int| !email_witness(b@, x, dd) by {
                if email_witness(b@, x, dd) {
                    assert(b@[dd] != 46);
                }
            }
        }
        return false;
    }
    let d = d - 1;
    proof {
        assert(b@[d as int] == 46);
    }
    // The last dot must leave a non-empty domain after the `@` and at
    // least two letters after itself.
    if d <= a || d - a < 2 || b.len() - d < 3 {
        proof {
            lemma_at_unique(b@, a as int);
            lemma_dot_unique(b@, d as int);
            assert forall|x: int, dd: int| !email_witness(b@, x, dd) by {
                if email_witness(b@, x, dd) {
                    assert(x == a && dd == d);
                }
            }
        }
        return false;
    }
    // Check the domain part between the `@` and the last dot.
    let mut j: usize = a + 1;
    while j < d
        invariant
            a < j <= d < b@.len(),
            b@[a as int] == 64,
            b@[d as int] == 46,
            forall|k: int| 0 <= k < a ==> b@[k] != 64,
            forall|k: int| d < k < b@.len() ==> b@[k] != 46,
            forall|k: int| a < k < j ==> is_domain_byte(#[trigger] b@[k]),
            b@ == email.spec_bytes(),
        decreases d - j,
    {
        let c = b[j];
        if !(97 <= c && c <= 122 || 65 <= c && c <= 90 || 48 <= c && c <= 57 || c == 46 || c
            == 45) {
            proof {
                lemma_at_unique(b@, a as int);
                lemma_dot_unique(b@, d as int);
                assert forall|x: int, dd: int| !email_witness(b@, x, dd) by {
                    if email_witness(b@, x, dd) {
                        assert(x == a && dd == d);
                        assert(is_domain_byte(b@[j as int]));
                    }
                }
            }
            return false;
        }
        j += 1;
    }
    // Check the ending after the last dot: letters only.
    let mut j: usize = d + 1;
    while j < b.len()
        invariant
            d < j <= b@.len(),
            a < d < b@.len(),
            b@[a as int] == 64,
            b@[d as int] == 46,
            forall|k: int| 0 <= k < a ==> b@[k] != 64,
            forall|k: int| d < k < b@.len() ==> b@[k] != 46,
            forall|k: int| d < k < j ==> is_alpha_byte(#[trigger] b@[k]),
            b@ == email.spec_bytes(),
        decreases b@.len() - j,
    {
        let c = b[j];
        if !(97 <= c && c <= 122 || 65 <= c && c <= 90) {
            proof {
                lemma_at_unique(b@, a as int);
                lemma_dot_unique(b@, d as int);
                assert forall|x: int, dd: int| !email_witness(b@, x, dd) by {
                    if email_witness(b@, x, dd) {
                        assert(x == a && dd == d);
                        assert(is_alpha_byte(b@[j as int]));
                    }
                }
            }
            return false;
        }
        j += 1;
    }
    proof {
        assert(email_witness(b@, a as int, d as int));
    }
    true
}

/// The body of `valid_email`'s quantifier, named so proofs can point at
/// one candidate split.
pub open spec fn email_witness(b: Seq<u8>, a: int, d: int) -> bool {
    &&& 0 < a < d
    &&& a + 1 < d < b.len() - 2
    &&& (forall|j: int| 0 <= j < a ==> is_local_byte(#[trigger] b[j]))
    &&& b[a] == 64
    &&& (forall|j: int| a < j < d ==> is_domain_byte(#[trigger] b[j]))
    &&& b[d] == 46
    &&& (forall|j: int| d < j < b.len() ==> is_alpha_byte(#[trigger] b[j]))
}

/// In any witnessed split, the `@` stands at the one position `a` whose
/// prefix is free of `@`: no byte class on either side admits one.
proof fn lemma_at_unique(b: Seq<u8>, a: int)
    requires
        0 <= a < b.len(),
        b[a] == 64,
        forall|k: int| 0 <= k < a ==> b[k] != 64,
    ensures
        forall|x: int, d: int| email_witness(b, x, d) ==> x == a,
{
    assert forall|x: int, d: int| email_witness(b, x, d) implies x == a by {
        if x < a {
            assert(b[x] != 64);
        }
        if x > a {
            assert(is_local_byte(b[a]));
        }
    }
}

/// In any witnessed split, the final dot stands at the last `.` of the
/// whole string, since only letters may follow it.
proof fn lemma_dot_unique(b: Seq<u8>, d: int)
    requires
        0 <= d < b.len(),
        b[d] == 46,
        forall|k: int| d < k < b.len() ==> b[k] != 46,
    ensures
        forall|x: int, dd: int| email_witness(b, x, dd) ==> dd == d,
{
    assert forall|x: int, dd: int| email_witness(b, x, dd) implies dd == d by {
        if dd < d {
            assert(is_alpha_byte(b[d]));
        }
        if dd > d {
            assert(b[dd] != 46);
        }
    }
}

/// Why a password change is refused.
#[derive(Clone, Copy, Debug, PartialEq, Eq, Structural)]
pub enum PasswordChangeError {
    /// The supplied current password did not verify against the stored
    /// hash.
    CurrentPasswordWrong,
    /// New password and its confirmation differ.
    ConfirmationMismatch,
    /// The new password equals the current one.
    PasswordUnchanged,
    /// The new password fails the strength rule.
    WeakPassword,
}

/// The outcome of a password change request, checked in the order the
/// page applies: current-password verification, confirmation match,
/// difference from the current password, strength.
pub open spec fn password_change_outcome(
    current_password_ok: bool,
    current: Seq<char>,
    new: Seq<char>,
    confirm: Seq<char>,
) -> Result<(), PasswordChangeError> {
    if !current_password_ok {
        Err(PasswordChangeError::CurrentPasswordWrong)
    } else if new != confirm {
        Err(PasswordChangeError::ConfirmationMismatch)
    } else if new == current {
        Err(PasswordChangeError::PasswordUnchanged)
    } else if !strong_password(vstd::utf8::encode_utf8(new)) {
        Err(PasswordChangeError::WeakPassword)
    } else {
        Ok(())
    }
}

/// Decides a password change request.  `current_password_ok` is the
/// verdict of verifying the supplied current password against the stored
/// hash, which the storage collaborator computes.
pub fn validate_password_change(current_password_ok: bool, req: &PasswordChangeRequest) -> (r:
    Result<(), PasswordChangeError>)
    ensures
        r == password_change_outcome(
            current_password_ok,
            req.current_password@,
            req.new_password@,
            req.confirm_password@,
        ),
{
    if !current_password_ok {
        Err(PasswordChangeError::CurrentPasswordWrong)
    } else if !(req.new_password == req.confirm_password) {
        Err(PasswordChangeError::ConfirmationMismatch)
    } else if req.new_password == req.current_password {
        Err(PasswordChangeError::PasswordUnchanged)
    } else if !is_strong_password(req.new_password.as_str()) {
        Err(PasswordChangeError::WeakPassword)
    } else {
        Ok(())
    }
}

/// Why an email change is refused.
#[derive(Clone, Copy, Debug, PartialEq, Eq, Structural)]
pub enum EmailChangeError {
    /// The new email equals the current one.
    EmailUnchanged,
    /// The new email is not well-formed.
    InvalidEmailFormat,
}

/// The outcome of an email change request: the new address must differ
/// from the current one and be well-formed.
pub open spec fn email_change_outcome(current: Seq<char>, new: Seq<char>) -> Result<
    (),
    EmailChangeError,
> {
    if current == new {
        Err(EmailChangeError::EmailUnchanged)
    } else if !valid_email(vstd::utf8::encode_utf8(new)) {
        Err(EmailChangeError::InvalidEmailFormat)
    } else {
        Ok(())
    }
}

/// Decides an email change request against the current stored address.
pub fn validate_email_change(current_email: &String, new_email: &String) -> (r: Result<
    (),
    EmailChangeError,
>)
    ensures
        r == email_change_outcome(current_email@, new_email@),
{
    if *current_email == *new_email {
        Err(EmailChangeError::EmailUnchanged)
    } else if !is_valid_email(new_email.as_str()) {
        Err(EmailChangeError::InvalidEmailFormat)
    } else {
        Ok(())
    }
}

} // verus!
