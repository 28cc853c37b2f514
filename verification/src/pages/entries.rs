//! Validation of entry edits, shared by a user's own pages and the
//! administrative ones.
//!
//! An edit arrives as a partially-filled record.  Editing needs the
//! entry's id — and, for time entries, the duration — while a missing
//! task, date, or reason falls back to empty.  The store is handed only
//! complete rows.

use vstd::prelude::*;

use crate::pages::index::{AbsenceEntry, TimeEntry};

verus! {

/// A complete row for updating a time entry.
pub struct TimeEntryUpdate {
    pub entry_id: i64,
    pub task: String,
    pub spent_time: i64,
    pub date: String,
}

/// A complete row for updating an absence entry.
pub struct AbsenceEntryUpdate {
    pub entry_id: i64,
    pub absence_date: String,
    pub reason: String,
}

/// Why an entry edit is refused.
#[derive(Clone, Copy, Debug, PartialEq, Eq, Structural)]
pub enum EntryEditError {
    /// The record named no entry id.
    MissingEntryId,
    /// The time entry named no duration.
    MissingSpentTime,
}

/// Validates a time entry edit: the id and the duration must be present;
/// task and date fall back to empty strings.
pub fn validate_time_entry_edit(entry: &TimeEntry) -> (r: Result<TimeEntryUpdate, EntryEditError>)
    ensures
        entry@.id is None <==> r == Err::<TimeEntryUpdate, _>(EntryEditError::MissingEntryId),
        entry@.id is Some && entry@.spent_time is None <==> r == Err::<TimeEntryUpdate, _>(
            EntryEditError::MissingSpentTime,
        ),
        r matches Ok(u) ==> {
            &&& Some(u.entry_id) == entry@.id
            &&& Some(u.spent_time) == entry@.spent_time
            &&& u.task@ == match entry@.task {
                Some(t) => t,
                None => Seq::<char>::empty(),
            }
            &&& u.date@ == match entry@.date {
                Some(d) => d,
                None => Seq::<char>::empty(),
            }
        },
        r is Ok <==> entry@.id is Some && entry@.spent_time is Some,
{
    let entry_id = match entry.id {
        Some(id) => id,
        None => return Err(EntryEditError::MissingEntryId),
    };
    let spent_time = match entry.spent_time {
        Some(t) => t,
        None => return Err(EntryEditError::MissingSpentTime),
    };
    let task = match &entry.task {
        Some(t) => t.clone(),
        None => String::new(),
    };
    let date = match &entry.date {
        Some(d) => d.clone(),
        None => String::new(),
    };
    Ok(TimeEntryUpdate { entry_id, task, spent_time, date })
}

/// Validates an absence entry edit: the id must be present; the reason
/// falls back to an empty string.
pub fn validate_absence_entry_edit(entry: &AbsenceEntry) -> (r: Result<
    AbsenceEntryUpdate,
    EntryEditError,
>)
    ensures
        entry@.id is None <==> r == Err::<AbsenceEntryUpdate, _>(EntryEditError::MissingEntryId),
        r matches Ok(u) ==> {
            &&& Some(u.entry_id) == entry@.id
            &&& u.absence_date@ == entry@.absence_date
            &&& u.reason@ == match entry@.reason {
                Some(t) => t,
                None => Seq::<char>::empty(),
            }
        },
        r is Ok <==> entry@.id is Some,
{
    let entry_id = match entry.id {
        Some(id) => id,
        None => return Err(EntryEditError::MissingEntryId),
    };
    let reason = match &entry.reason {
        Some(t) => t.clone(),
        None => String::new(),
    };
    Ok(AbsenceEntryUpdate { entry_id, absence_date: entry.absence_date.clone(), reason })
}

} // verus!
