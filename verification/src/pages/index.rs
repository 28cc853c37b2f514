//! The records shared by the pages: the session-carried user identity and
//! the time and absence entries it owns.

use vstd::prelude::*;

verus! {

/// The user identity carried by the session cookie.
///
/// `authority`, when present, is meaningful only if it is a member of the
/// closed role enumeration; an absent role is treated as the
/// lowest-privilege default by the authority gate.
#[derive(Debug)]
pub struct UserInfo {
    pub id: i64,
    pub username: Option<String>,
    pub email: Option<String>,
    pub authority: Option<String>,
}

/// Mathematical image of a `UserInfo`.
pub struct UserInfoV {
    pub id: i64,
    pub username: Option<Seq<char>>,
    pub email: Option<Seq<char>>,
    pub authority: Option<Seq<char>>,
}

/// The image of an optional string.
pub open spec fn opt_string_view(s: Option<String>) -> Option<Seq<char>> {
    match s {
        Some(x) => Some(x@),
        None => None,
    }
}

impl View for UserInfo {
    type V = UserInfoV;

    open spec fn view(&self) -> UserInfoV {
        UserInfoV {
            id: self.id,
            username: opt_string_view(self.username),
            email: opt_string_view(self.email),
            authority: opt_string_view(self.authority),
        }
    }
}

impl UserInfo {
    /// Replaces the identity's role, leaving every other field unchanged.
    /// The session store re-issues the cookie from the changed identity.
    pub fn set_authority(&mut self, new_authority: String)
        ensures
            final(self)@ == (UserInfoV { authority: Some(new_authority@), ..old(self)@ }),
    {
        self.authority = Some(new_authority);
    }

    /// Replaces the identity's email, leaving every other field unchanged.
    pub fn set_email(&mut self, new_email: String)
        ensures
            final(self)@ == (UserInfoV { email: Some(new_email@), ..old(self)@ }),
    {
        self.email = Some(new_email);
    }
}

/// What a page's rendering context shows about the current user.
pub struct ContextFields {
    pub username: Option<String>,
    pub email: Option<String>,
    pub authority: Option<String>,
}

/// Prepares the user-facing context fields: the session identity's own
/// fields when an identity is present, and placeholder labels when none
/// could be read.
pub fn prepare_context(session: Option<&UserInfo>) -> (r: ContextFields)
    ensures
        match session {
            Some(u) => {
                &&& opt_string_view(r.username) == u@.username
                &&& opt_string_view(r.email) == u@.email
                &&& opt_string_view(r.authority) == u@.authority
            },
            None => {
                &&& opt_string_view(r.username) == Some("Unbekannter Benutzer"@)
                &&& opt_string_view(r.email) == Some("Unbekannte E-Mail"@)
                &&& opt_string_view(r.authority) == Some("Unbekannte Rolle"@)
            },
        },
{
    match session {
        Some(u) => ContextFields {
            username: u.username.clone(),
            email: u.email.clone(),
            authority: u.authority.clone(),
        },
        None => ContextFields {
            username: Some("Unbekannter Benutzer".to_owned()),
            email: Some("Unbekannte E-Mail".to_owned()),
            authority: Some("Unbekannte Rolle".to_owned()),
        },
    }
}

/// One recorded block of working time.
#[derive(Debug)]
pub struct TimeEntry {
    pub id: Option<i64>,
    pub task: Option<String>,
    pub spent_time: Option<i64>,
    pub date: Option<String>,
}

/// Mathematical image of a `TimeEntry`.
pub struct TimeEntryV {
    pub id: Option<i64>,
    pub task: Option<Seq<char>>,
    pub spent_time: Option<i64>,
    pub date: Option<Seq<char>>,
}

impl View for TimeEntry {
    type V = TimeEntryV;

    open spec fn view(&self) -> TimeEntryV {
        TimeEntryV {
            id: self.id,
            task: opt_string_view(self.task),
            spent_time: self.spent_time,
            date: opt_string_view(self.date),
        }
    }
}

/// One recorded absence.
#[derive(Debug)]
pub struct AbsenceEntry {
    pub id: Option<i64>,
    pub absence_date: String,
    pub reason: Option<String>,
}

/// Mathematical image of an `AbsenceEntry`.
pub struct AbsenceEntryV {
    pub id: Option<i64>,
    pub absence_date: Seq<char>,
    pub reason: Option<Seq<char>>,
}

impl View for AbsenceEntry {
    type V = AbsenceEntryV;

    open spec fn view(&self) -> AbsenceEntryV {
        AbsenceEntryV {
            id: self.id,
            absence_date: self.absence_date@,
            reason: opt_string_view(self.reason),
        }
    }
}

} // verus!
