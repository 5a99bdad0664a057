use vstd::prelude::*;

use crate::decimal::{clock_label, clock_text};
use crate::text::owned;

verus! {

/// One study session on the weekly schedule.
#[derive(Clone, Debug)]
pub struct ScheduleEntry {
    /// 0 is Monday, 6 is Sunday.
    pub day_of_week: u8,
    /// 0 to 23.
    pub hour: u8,
    /// 0 to 59.
    pub minute: u8,
    pub course: String,
    pub assignment: String,
}

/// A session that falls on a weekday and at a time of day.
pub open spec fn valid_entry(e: ScheduleEntry) -> bool {
    e.day_of_week < 7 && e.hour < 24 && e.minute < 60
}

/// The name of a day of the week, Monday first.
pub open spec fn day_name_of(day: int) -> Seq<char> {
    if day == 0 {
        "Monday"@
    } else if day == 1 {
        "Tuesday"@
    } else if day == 2 {
        "Wednesday"@
    } else if day == 3 {
        "Thursday"@
    } else if day == 4 {
        "Friday"@
    } else if day == 5 {
        "Saturday"@
    } else {
        "Sunday"@
    }
}

pub fn day_name(day: usize) -> (r: String)
    requires
        day < 7,
    ensures
        r@ == day_name_of(day as int),
{
    if day == 0 {
        owned("Monday")
    } else if day == 1 {
        owned("Tuesday")
    } else if day == 2 {
        owned("Wednesday")
    } else if day == 3 {
        owned("Thursday")
    } else if day == 4 {
        owned("Friday")
    } else if day == 5 {
        owned("Saturday")
    } else {
        owned("Sunday")
    }
}

/// The positions, in order, of the entries among the first `n` that fall on `day`.
pub open spec fn day_indices(entries: Seq<ScheduleEntry>, day: int, n: int) -> Seq<usize>
    decreases n,
{
    if n <= 0 {
        Seq::empty()
    } else if entries[n - 1].day_of_week == day {
        day_indices(entries, day, n - 1).push((n - 1) as usize)
    } else {
        day_indices(entries, day, n - 1)
    }
}

/// The positions, in order, of the sessions that fall on `day`.
pub fn entries_for_day(entries: &Vec<ScheduleEntry>, day: usize) -> (r: Vec<usize>)
    ensures
        r@ == day_indices(entries@, day as int, entries@.len() as int),
{
    let mut r: Vec<usize> = Vec::new();
    let mut i: usize = 0;
    while i < entries.len()
        invariant
            i <= entries@.len(),
            r@ == day_indices(entries@, day as int, i as int),
        decreases entries@.len() - i,
    {
        if entries[i].day_of_week as usize == day {
            r.push(i);
        }
        i = i + 1;
    }
    r
}

/// The `HH:MM` label of a session.
pub fn entry_time_label(entry: &ScheduleEntry) -> (r: String)
    ensures
        r@ == clock_text(entry.hour as nat, entry.minute as nat),
{
    clock_label(entry.hour, entry.minute)
}

/// The list for a day holds exactly the sessions on that day, each once, in
/// the order they were added.
pub proof fn lemma_day_indices_exact(entries: Seq<ScheduleEntry>, day: int, n: int)
    requires
        0 <= n <= entries.len(),
        entries.len() <= usize::MAX,
    ensures
        forall|i: usize|
            #![trigger day_indices(entries, day, n).contains(i)]
            day_indices(entries, day, n).contains(i) <==> (i < n && entries[i as int].day_of_week
                == day),
        forall|a: int, b: int|
            0 <= a < b < day_indices(entries, day, n).len() ==> day_indices(entries, day, n)[a]
                < day_indices(entries, day, n)[b],
    decreases n,
{
    if n > 0 {
        lemma_day_indices_exact(entries, day, n - 1);
        let prev = day_indices(entries, day, n - 1);
        let cur = day_indices(entries, day, n);
        if entries[n - 1].day_of_week == day {
            assert(cur == prev.push((n - 1) as usize));
            assert forall|i: usize| #[trigger] cur.contains(i) <==> (i < n
                && entries[i as int].day_of_week == day) by {
                if cur.contains(i) {
                    let k = choose|k: int| 0 <= k < cur.len() && cur[k] == i;
                    if k < prev.len() {
                        assert(prev[k] == i);
                        assert(prev.contains(i));
                    } else {
                        assert(i == n - 1);
                    }
                }
                if i < n && entries[i as int].day_of_week == day {
                    if i < n - 1 {
                        assert(prev.contains(i));
                        let k = choose|k: int| 0 <= k < prev.len() && prev[k] == i;
                        assert(cur[k] == i);
                    } else {
                        assert(cur[cur.len() - 1] == i);
                    }
                }
            }
            assert forall|a: int, b: int| 0 <= a < b < cur.len() implies cur[a] < cur[b] by {
                assert(cur[a] == prev[a]);
                assert(prev.contains(prev[a]));
                if b < cur.len() - 1 {
                    assert(cur[b] == prev[b]);
                }
            }
        } else {
            assert(cur == prev);
            assert forall|i: usize| #[trigger] cur.contains(i) <==> (i < n
                && entries[i as int].day_of_week == day) by {
                assert(prev.contains(i) <==> (i < n - 1 && entries[i as int].day_of_week == day));
            }
        }
    } else {
        assert(day_indices(entries, day, n) =~= Seq::<usize>::empty());
    }
}

/// Every session on a weekday is listed under its own day and under no other.
pub proof fn lemma_entry_listed_once(entries: Seq<ScheduleEntry>, i: usize, day: int)
    requires
        i < entries.len(),
        entries.len() <= usize::MAX,
    ensures
        day_indices(entries, day, entries.len() as int).contains(i) <==> entries[i as int].day_of_week
            == day,
{
    lemma_day_indices_exact(entries, day, entries.len() as int);
}

} // verus!
