//! The hours of the day in which an account is polled.

use crate::timestamp::{clock_now, Timestamp};
use crate::user_settings::{option_hours, UserSettings};
use vstd::prelude::*;

verus! {

/// Whether an account with the schedule `schedule` is polled at `now`:
/// always where it has none, and else where the UTC hour of `now` is one
/// of the listed hours. Minutes and seconds play no part.
pub open spec fn due(schedule: Option<Seq<u32>>, now: Timestamp) -> bool {
    match schedule {
        None => true,
        Some(hours) => exists|i: int|
            0 <= i < hours.len() && #[trigger] hours[i] == now.hour_of_day(),
    }
}

/// Whether an account with the schedule `schedule` is polled at `now`.
pub fn is_due(schedule: &Option<Vec<u32>>, now: &Timestamp) -> (b: bool)
    ensures
        b == due(option_hours(*schedule), *now),
{
    match schedule {
        None => true,
        Some(hours) => {
            let hour = now.utc_hour();
            let mut i: usize = 0;
            while i < hours.len()
                invariant
                    i <= hours.len(),
                    option_hours(*schedule) == Some(hours@),
                    hour == now.hour_of_day(),
                    forall|k: int| 0 <= k < i ==> hours@[k] != hour,
                decreases hours.len() - i,
            {
                if hours[i] == hour {
                    proof {
                        let listed = option_hours(*schedule)->Some_0;
                        assert(listed[i as int] == now.hour_of_day());
                        assert(due(option_hours(*schedule), *now));
                    }
                    return true;
                }
                i = i + 1;
            }
            false
        },
    }
}

/// Whether the account with these settings is polled at `now`.
pub fn matching_schedule_at(settings: &UserSettings, now: &Timestamp) -> (b: bool)
    ensures
        b == due(settings@.schedule, *now),
{
    is_due(&settings.schedule, now)
}

/// Whether the account with these settings is polled at present. An
/// account without a schedule is.
pub fn matching_schedule(settings: &UserSettings) -> (b: bool)
    ensures
        exists|now: Timestamp| b == due(settings@.schedule, now),
        settings.schedule is None ==> b,
{
    let now = clock_now();
    matching_schedule_at(settings, &now)
}

/// An account without a schedule is polled at every instant.
pub proof fn lemma_unscheduled_is_always_due(now: Timestamp)
    ensures
        due(None, now),
{
}

/// Whether a scheduled account is polled depends on the hour alone: two
/// instants in the same hour of the day are both due or both not.
pub proof fn lemma_due_by_hour(hours: Seq<u32>, a: Timestamp, b: Timestamp)
    requires
        a.hour_of_day() == b.hour_of_day(),
    ensures
        due(Some(hours), a) == due(Some(hours), b),
{
    if due(Some(hours), a) {
        let i = choose|i: int| 0 <= i < hours.len() && hours[i] == a.hour_of_day();
        assert(hours[i] == b.hour_of_day());
    }
    if due(Some(hours), b) {
        let i = choose|i: int| 0 <= i < hours.len() && hours[i] == b.hour_of_day();
        assert(hours[i] == a.hour_of_day());
    }
}

} // verus!
