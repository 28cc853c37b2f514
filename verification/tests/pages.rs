//! The page-level decisions: the role comparator, the validators, the
//! totals, the logout response, and the login response.

use time_tracker::authority::{check_authority, Authority, AuthorityError};
use time_tracker::codec::{decode_session, derive_session_key};
use time_tracker::config::{Config, GlobalConfig, SessionConfig};
use time_tracker::pages::admin::{update_authority_allowed, UpdateAuthority};
use time_tracker::pages::entries::{
    validate_absence_entry_edit, validate_time_entry_edit, EntryEditError,
};
use time_tracker::pages::home::total_spent_minutes;
use time_tracker::pages::index::{prepare_context, AbsenceEntry, TimeEntry, UserInfo};
use time_tracker::pages::login::login_response;
use time_tracker::pages::logout::logout;
use time_tracker::pages::settings::{
    is_strong_password, is_valid_email, validate_email_change, validate_password_change,
    EmailChangeError, PasswordChangeError, PasswordChangeRequest,
};
use time_tracker::request::Request;

#[test]
fn comparator_accepts_equal_roles() {
    assert!(check_authority(&"EMPLOYEE".to_string(), &"EMPLOYEE".to_string()).is_ok());
    assert!(check_authority(&"ADMINISTRATOR".to_string(), &"ADMINISTRATOR".to_string()).is_ok());
}

#[test]
fn comparator_rejects_differing_roles() {
    assert_eq!(
        check_authority(&"EMPLOYEE".to_string(), &"ADMINISTRATOR".to_string()),
        Err(AuthorityError::NotAuthorized)
    );
}

#[test]
fn comparator_rejects_roles_outside_the_enumeration() {
    assert_eq!(
        check_authority(&"GUEST".to_string(), &"EMPLOYEE".to_string()),
        Err(AuthorityError::InvalidUserAuthority)
    );
    assert_eq!(
        check_authority(&"EMPLOYEE".to_string(), &"ROOT".to_string()),
        Err(AuthorityError::InvalidRequiredAuthority)
    );
    // Exact spelling only: no case folding, no surrounding space.
    assert_eq!(
        check_authority(&"employee".to_string(), &"EMPLOYEE".to_string()),
        Err(AuthorityError::InvalidUserAuthority)
    );
}

#[test]
fn role_parsing_matches_the_closed_set() {
    assert_eq!(Authority::from_str(&"EMPLOYEE".to_string()), Some(Authority::Employee));
    assert_eq!(
        Authority::from_str(&"ADMINISTRATOR".to_string()),
        Some(Authority::Administrator)
    );
    assert_eq!(Authority::from_str(&"MANAGER".to_string()), None);
}

#[test]
fn authority_error_messages() {
    assert_eq!(AuthorityError::InvalidUserAuthority.message(), "Invalid user authority");
    assert_eq!(
        AuthorityError::NotAuthorized.message(),
        "User does not have the required authority"
    );
}

#[test]
fn strong_password_needs_all_three_classes_and_length() {
    assert!(is_strong_password("Abcdefg1"));
    assert!(!is_strong_password("Abcdef1"));
    assert!(!is_strong_password("abcdefg1"));
    assert!(!is_strong_password("ABCDEFG1"));
    assert!(!is_strong_password("Abcdefgh"));
    assert!(is_strong_password("xY3-and-more"));
}

#[test]
fn email_validation_accepts_plausible_addresses() {
    assert!(is_valid_email("a@b.co"));
    assert!(is_valid_email("alice.smith+tag@mail.example.com"));
    assert!(is_valid_email("A_1%-@x-9.de"));
}

#[test]
fn email_validation_rejects_malformed_addresses() {
    assert!(!is_valid_email(""));
    assert!(!is_valid_email("no-at-sign.example.com"));
    assert!(!is_valid_email("@example.com"));
    assert!(!is_valid_email("a@.com"));
    assert!(!is_valid_email("a@b.c"));
    assert!(!is_valid_email("a@b.com."));
    assert!(!is_valid_email("a b@c.de"));
    assert!(!is_valid_email("a@b@c.de"));
    assert!(!is_valid_email("a@bcde"));
}

fn password_request(current: &str, new: &str, confirm: &str) -> PasswordChangeRequest {
    PasswordChangeRequest {
        current_password: current.to_string(),
        new_password: new.to_string(),
        confirm_password: confirm.to_string(),
    }
}

#[test]
fn password_change_checks_in_page_order() {
    let ok = password_request("Old-pass1", "New-pass2", "New-pass2");
    assert!(validate_password_change(true, &ok).is_ok());
    assert_eq!(
        validate_password_change(false, &ok),
        Err(PasswordChangeError::CurrentPasswordWrong)
    );
    assert_eq!(
        validate_password_change(true, &password_request("Old-pass1", "New-pass2", "Other3")),
        Err(PasswordChangeError::ConfirmationMismatch)
    );
    assert_eq!(
        validate_password_change(true, &password_request("Old-pass1", "Old-pass1", "Old-pass1")),
        Err(PasswordChangeError::PasswordUnchanged)
    );
    assert_eq!(
        validate_password_change(true, &password_request("Old-pass1", "weak", "weak")),
        Err(PasswordChangeError::WeakPassword)
    );
}

#[test]
fn email_change_needs_a_new_well_formed_address() {
    let current = "old@example.com".to_string();
    assert!(validate_email_change(&current, &"new@example.com".to_string()).is_ok());
    assert_eq!(
        validate_email_change(&current, &current),
        Err(EmailChangeError::EmailUnchanged)
    );
    assert_eq!(
        validate_email_change(&current, &"not-an-email".to_string()),
        Err(EmailChangeError::InvalidEmailFormat)
    );
}

fn time_entry(id: Option<i64>, spent: Option<i64>) -> TimeEntry {
    TimeEntry { id, task: Some("task".to_string()), spent_time: spent, date: None }
}

#[test]
fn time_entry_edit_needs_id_and_duration() {
    let ok = validate_time_entry_edit(&time_entry(Some(5), Some(90))).unwrap();
    assert_eq!(ok.entry_id, 5);
    assert_eq!(ok.spent_time, 90);
    assert_eq!(ok.task, "task");
    assert_eq!(ok.date, "");
    assert!(matches!(
        validate_time_entry_edit(&time_entry(None, Some(90))),
        Err(EntryEditError::MissingEntryId)
    ));
    assert!(matches!(
        validate_time_entry_edit(&time_entry(Some(5), None)),
        Err(EntryEditError::MissingSpentTime)
    ));
}

#[test]
fn absence_entry_edit_needs_id() {
    let entry = AbsenceEntry {
        id: Some(9),
        absence_date: "2024-05-01".to_string(),
        reason: None,
    };
    let ok = validate_absence_entry_edit(&entry).unwrap();
    assert_eq!(ok.entry_id, 9);
    assert_eq!(ok.absence_date, "2024-05-01");
    assert_eq!(ok.reason, "");
    let missing = AbsenceEntry { id: None, absence_date: "2024-05-01".to_string(), reason: None };
    assert!(matches!(
        validate_absence_entry_edit(&missing),
        Err(EntryEditError::MissingEntryId)
    ));
}

#[test]
fn total_minutes_adds_up_and_defaults_missing_to_zero() {
    let entries = vec![
        time_entry(Some(1), Some(30)),
        time_entry(Some(2), None),
        time_entry(Some(3), Some(45)),
        time_entry(Some(4), Some(-15)),
    ];
    assert_eq!(total_spent_minutes(&entries), 60);
    assert_eq!(total_spent_minutes(&Vec::new()), 0);
}

#[test]
fn update_authority_requires_matching_user() {
    let form = UpdateAuthority { user_id: 4, new_authority: "EMPLOYEE".to_string() };
    assert!(update_authority_allowed(&form, 4));
    assert!(!update_authority_allowed(&form, 5));
}

#[test]
fn session_identity_can_change_role_and_email() {
    let mut u = UserInfo {
        id: 1,
        username: Some("bob".to_string()),
        email: Some("bob@example.com".to_string()),
        authority: Some("EMPLOYEE".to_string()),
    };
    u.set_authority("ADMINISTRATOR".to_string());
    assert_eq!(u.authority.as_deref(), Some("ADMINISTRATOR"));
    u.set_email("new@example.com".to_string());
    assert_eq!(u.email.as_deref(), Some("new@example.com"));
    assert_eq!(u.username.as_deref(), Some("bob"));
    assert_eq!(u.id, 1);
}

#[test]
fn logout_redirects_and_clears_the_token_cookie() {
    let req = Request {
        path: b"/logout".to_vec(),
        cookie_header: Some(b"token=abc".to_vec()),
    };
    let r = logout(&req);
    assert_eq!(r.status, 302);
    assert_eq!(r.location.as_deref(), Some(b"/login".as_slice()));
    assert_eq!(r.cookies.len(), 1);
    let c = &r.cookies[0];
    assert_eq!(c.name, b"token".to_vec());
    assert_eq!(c.value, Vec::<u8>::new());
    assert_eq!(c.max_age_seconds, Some(0));
    assert!(c.http_only);
}

#[test]
fn logout_without_cookie_clears_nothing() {
    let r = logout(&Request { path: b"/logout".to_vec(), cookie_header: None });
    assert_eq!(r.status, 302);
    assert_eq!(r.location.as_deref(), Some(b"/login".as_slice()));
    assert!(r.cookies.is_empty());
    // An empty-valued token pair is still a pair, so it is cleared.
    let r = logout(&Request {
        path: b"/logout".to_vec(),
        cookie_header: Some(b"token=".to_vec()),
    });
    assert_eq!(r.cookies.len(), 1);
}

#[test]
fn successful_login_issues_a_working_session_cookie() {
    let key = derive_session_key(b"an-exercise-secret-of-enough-length-0123456789").unwrap();
    let u = UserInfo {
        id: 11,
        username: Some("carol".to_string()),
        email: None,
        authority: Some("EMPLOYEE".to_string()),
    };
    let r = login_response(Some(&u), &key);
    assert_eq!(r.status, 302);
    assert_eq!(r.location.as_deref(), Some(b"/home".as_slice()));
    assert_eq!(r.cookies.len(), 1);
    assert_eq!(r.cookies[0].name, b"token".to_vec());
    let value = String::from_utf8(r.cookies[0].value.clone()).unwrap();
    let decoded = decode_session(&value, &key).unwrap();
    assert_eq!(decoded.id, 11);
    assert_eq!(decoded.username.as_deref(), Some("carol"));
    assert_eq!(decoded.authority.as_deref(), Some("EMPLOYEE"));
}

#[test]
fn failed_login_shows_the_form_again() {
    let key = derive_session_key(b"an-exercise-secret-of-enough-length-0123456789").unwrap();
    let r = login_response(None, &key);
    assert_eq!(r.status, 200);
    assert!(r.location.is_none());
    assert!(r.cookies.is_empty());
}

#[test]
fn config_hands_the_secret_on() {
    let config = Config::new(GlobalConfig {
        session: SessionConfig { secret_key: "a-configured-session-secret".to_string() },
    });
    assert_eq!(config.get_secret_key(), "a-configured-session-secret");
}

#[test]
fn context_shows_identity_or_placeholders() {
    let u = UserInfo {
        id: 2,
        username: Some("dora".to_string()),
        email: None,
        authority: Some("EMPLOYEE".to_string()),
    };
    let c = prepare_context(Some(&u));
    assert_eq!(c.username.as_deref(), Some("dora"));
    assert_eq!(c.email, None);
    assert_eq!(c.authority.as_deref(), Some("EMPLOYEE"));
    let c = prepare_context(None);
    assert_eq!(c.username.as_deref(), Some("Unbekannter Benutzer"));
    assert_eq!(c.email.as_deref(), Some("Unbekannte E-Mail"));
    assert_eq!(c.authority.as_deref(), Some("Unbekannte Rolle"));
}
