//! The home page's computations over a user's recorded entries.
//!
//! The page lists a user's time entries and absence entries and shows the
//! minutes they add up to.  Fetching the entries is the store's concern;
//! the summation is here.

use vstd::prelude::*;

use crate::pages::index::{TimeEntry, TimeEntryV};

verus! {

/// A request to delete one time entry.
pub struct TimeDeleteRequest {
    pub id: i64,
}

/// A request to delete one absence entry.
pub struct AbsenceDeleteRequest {
    pub id: i64,
}

/// The images of a sequence of time entries.
pub open spec fn entries_view(s: Seq<TimeEntry>) -> Seq<TimeEntryV> {
    s.map_values(|e: TimeEntry| e@)
}

/// The minutes a sequence of entries adds up to, an absent duration
/// counting as zero.
pub open spec fn sum_spent(s: Seq<TimeEntryV>) -> int
    decreases s.len(),
{
    if s.len() == 0 {
        0
    } else {
        sum_spent(s.drop_last()) + match s.last().spent_time {
            Some(t) => t as int,
            None => 0,
        }
    }
}

/// Adds up the minutes of a user's time entries, an absent duration
/// counting as zero.  Every intermediate sum must fit the result type.
pub fn total_spent_minutes(entries: &Vec<TimeEntry>) -> (r: i64)
    requires
        forall|k: int|
            0 <= k <= entries@.len() ==> i64::MIN <= sum_spent(
                #[trigger] entries_view(entries@).take(k),
            ) <= i64::MAX,
    ensures
        r == sum_spent(entries_view(entries@)),
{
    let ghost all = entries_view(entries@);
    let mut total: i64 = 0;
    let mut i: usize = 0;
    proof {
        assert(all.take(0) =~= Seq::<TimeEntryV>::empty());
    }
    while i < entries.len()
        invariant
            0 <= i <= entries@.len(),
            all == entries_view(entries@),
            all.len() == entries@.len(),
            total == sum_spent(all.take(i as int)),
            forall|k: int|
                0 <= k <= entries@.len() ==> i64::MIN <= sum_spent(#[trigger] all.take(k))
                    <= i64::MAX,
        decreases entries@.len() - i,
    {
        let add = match &entries[i].spent_time {
            Some(t) => *t,
            None => 0,
        };
        proof {
            let next = all.take(i as int + 1);
            assert(next.drop_last() =~= all.take(i as int));
            assert(next.last() == all[i as int]);
            assert(all[i as int] == entries@[i as int]@);
            assert(i64::MIN <= sum_spent(next) <= i64::MAX);
        }
        total = total + add;
        i += 1;
    }
    proof {
        assert(all.take(i as int) =~= all);
    }
    total
}

} // verus!
