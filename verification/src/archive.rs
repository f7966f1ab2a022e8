//! The archive of past events: newest first, grouped by year.
use vstd::prelude::*;
use itertools::Itertools;
use std::cmp::Reverse;
use crate::clock::{in_time_range, local_date_of, no_earlier_year_after, now_utc, Timestamp, LATEST_UNIX_NANOS};
use crate::origins::is_clock_reading;
use crate::grouping::{is_runs_of, lemma_runs_decrease, runs_of_equal_keys};
use crate::sorting::is_stable_order;

verus! {

/// An event of the archive with the instant it is dated by.
#[derive(Debug)]
pub struct ArchivedEvent<T> {
    pub date: Timestamp,
    pub event: T,
}

/// The events of one year.
#[derive(Debug)]
pub struct EventsGroup<T> {
    pub year: i32,
    pub events: Vec<ArchivedEvent<T>>,
}

/// The keys by which the newest event comes first: the negated instants.
pub open spec fn newest_first_keys<T>(events: Seq<ArchivedEvent<T>>) -> Seq<i128> {
    events.map_values(|e: ArchivedEvent<T>| (-e.date.unix_nanos) as i128)
}

/// `sorted` holds `events` newest first, events of the same instant in their
/// original order.
pub open spec fn is_newest_first<T>(events: Seq<ArchivedEvent<T>>, sorted: Seq<ArchivedEvent<T>>) -> bool {
    exists|order: Seq<usize>| {
        &&& #[trigger] is_stable_order(newest_first_keys(events), order)
        &&& sorted.len() == events.len()
        &&& forall|k: int| 0 <= k < sorted.len() ==> #[trigger] sorted[k] == events[order[k] as int]
    }
}

/// The year of an event at its own offset.
pub open spec fn year_of<T>(e: ArchivedEvent<T>) -> i32 {
    local_date_of(e.date.unix_nanos, e.date.offset_seconds).year
}

/// The year of each event, as a key.
pub open spec fn year_keys<T>(events: Seq<ArchivedEvent<T>>) -> Seq<i64> {
    events.map_values(|e: ArchivedEvent<T>| year_of(e) as i64)
}

/// All events are dated within the range of the `time` crate.
pub open spec fn all_dated<T>(events: Seq<ArchivedEvent<T>>) -> bool {
    forall|k: int| 0 <= k < events.len() ==> (#[trigger] events[k]).date.wf()
}

/// All events are shown at one offset.
pub open spec fn same_offset<T>(events: Seq<ArchivedEvent<T>>) -> bool {
    forall|i: int, j: int| 0 <= i < j < events.len()
        ==> (#[trigger] events[i]).date.offset_seconds == (#[trigger] events[j]).date.offset_seconds
}

/// Each group is of a year before that of every group before it.
pub open spec fn years_decrease<T>(groups: Seq<EventsGroup<T>>) -> bool {
    forall|g: int, h: int| 0 <= g < h < groups.len() ==> (#[trigger] groups[h]).year < (#[trigger] groups[g]).year
}

/// `groups` are the runs of events of the same year in `sorted`, in order.
pub open spec fn groups_by_year<T>(groups: Seq<EventsGroup<T>>, sorted: Seq<ArchivedEvent<T>>) -> bool {
    exists|runs: Seq<(usize, usize)>| {
        &&& #[trigger] is_runs_of(year_keys(sorted), runs)
        &&& groups.len() == runs.len()
        &&& forall|g: int| 0 <= g < runs.len() ==> {
            &&& (#[trigger] groups[g]).year == year_of(sorted[runs[g].0 as int])
            &&& groups[g].events@ == sorted.subrange(runs[g].0 as int, runs[g].1 as int)
        }
    }
}

/// Calls `Itertools::sorted_by_key` with the reversed instant as the key. Claimed, as
/// its documentation says (it sorts with the stable `sort_by_key`): the same events,
/// newest first, events of the same instant in their original order. The events lie in
/// the range of the `time` crate, so that their negated instants are the keys that `Reverse` orders by.
#[verifier::external_body]
fn sorted_newest_first<T>(events: Vec<ArchivedEvent<T>>) -> (sorted: Vec<ArchivedEvent<T>>)
    requires
        all_dated(events@),
    ensures
        is_newest_first(events@, sorted@),
{
    events.into_iter().sorted_by_key(|e| Reverse(e.date.unix_nanos)).collect()
}

/// The events newest first, grouped into runs of the same year. Where all events
/// are shown at one offset, there is one group for each year, the latest first.
pub fn group_events_by_year<T>(events: Vec<ArchivedEvent<T>>) -> (groups: Vec<EventsGroup<T>>)
    requires
        all_dated(events@),
    ensures
        exists|sorted: Seq<ArchivedEvent<T>>| #[trigger] is_newest_first(events@, sorted) && groups_by_year(groups@, sorted),
        same_offset(events@) ==> years_decrease(groups@),
{
    let ghost original = events@;
    let sorted = sorted_newest_first(events);
    let ghost all = sorted@;
    proof {
        let order = choose|order: Seq<usize>| {
            &&& #[trigger] is_stable_order(newest_first_keys(original), order)
            &&& all.len() == original.len()
            &&& forall|k: int| 0 <= k < all.len() ==> #[trigger] all[k] == original[order[k] as int]
        };
        assert forall|k: int| 0 <= k < all.len() implies (#[trigger] all[k]).date.wf() by {
            assert(all[k] == original[order[k] as int]);
        }
    }
    let mut keys: Vec<i64> = Vec::new();
    let mut j: usize = 0;
    while j < sorted.len()
        invariant
            j <= all.len(),
            sorted@ == all,
            all_dated(all),
            keys@ == year_keys(all).take(j as int),
            forall|k: int| 0 <= k < j ==> no_earlier_year_after((#[trigger] all[k]).date,
                local_date_of(all[k].date.unix_nanos, all[k].date.offset_seconds)),
        decreases all.len() - j,
    {
        let year = sorted[j].date.date().year;
        keys.push(year as i64);
        j = j + 1;
        assert(keys@ =~= year_keys(all).take(j as int));
    }
    assert(keys@ =~= year_keys(all));
    proof {
        if same_offset(original) {
            lemma_years_never_increase(original, all);
        }
    }
    let runs = runs_of_equal_keys(keys.as_slice());
    proof {
        if same_offset(original) {
            lemma_runs_decrease(year_keys(all), runs@);
        }
    }
    let mut rest = sorted;
    let mut groups: Vec<EventsGroup<T>> = Vec::new();
    let mut g: usize = 0;
    while g < runs.len()
        invariant
            g <= runs@.len(),
            is_runs_of(year_keys(all), runs@),
            all_dated(all),
            same_offset(original) ==> forall|a: int, b: int| 0 <= a < b < runs@.len()
                ==> year_keys(all)[runs@[b].0 as int] < year_keys(all)[runs@[a].0 as int],
            groups@.len() == g,
            g < runs@.len() ==> rest@ == all.skip(runs@[g as int].0 as int),
            forall|h: int| 0 <= h < g ==> {
                &&& (#[trigger] groups@[h]).year == year_of(all[runs@[h].0 as int])
                &&& groups@[h].events@ == all.subrange(runs@[h].0 as int, runs@[h].1 as int)
            },
        decreases runs@.len() - g,
    {
        let (from, to) = runs[g];
        assert(from < to <= all.len());
        let ghost at_start = rest@;
        let year = rest[0].date.date().year;
        assert(rest@[0] == all[from as int]);
        let mut group: Vec<ArchivedEvent<T>> = Vec::new();
        let mut k: usize = from;
        while k < to
            invariant
                from <= k <= to <= all.len(),
                at_start == all.skip(from as int),
                rest@ == all.skip(k as int),
                group@ == all.subrange(from as int, k as int),
            decreases to - k,
        {
            let e = rest.remove(0);
            group.push(e);
            k = k + 1;
            assert(group@ =~= all.subrange(from as int, k as int));
            assert(rest@ =~= all.skip(k as int));
        }
        groups.push(EventsGroup { year, events: group });
        g = g + 1;
        proof {
            if g < runs@.len() {
                assert(runs@[g - 1].1 == runs@[g as int].0);
            }
        }
    }
    proof {
        assert(is_newest_first(original, all));
        if same_offset(original) {
            assert forall|a: int, b: int| 0 <= a < b < groups@.len() implies (#[trigger] groups@[b]).year
                < (#[trigger] groups@[a]).year by {
                assert(runs@[a].0 < runs@[a].1 <= all.len());
                assert(runs@[b].0 < runs@[b].1 <= all.len());
                assert(year_keys(all)[runs@[a].0 as int] == year_of(all[runs@[a].0 as int]) as i64);
                assert(year_keys(all)[runs@[b].0 as int] == year_of(all[runs@[b].0 as int]) as i64);
            }
        }
    }
    groups
}

/// Newest first and all at one offset, the years of the events never increase.
proof fn lemma_years_never_increase<T>(events: Seq<ArchivedEvent<T>>, sorted: Seq<ArchivedEvent<T>>)
    requires
        all_dated(events),
        same_offset(events),
        is_newest_first(events, sorted),
        forall|k: int| 0 <= k < sorted.len() ==> no_earlier_year_after((#[trigger] sorted[k]).date,
            local_date_of(sorted[k].date.unix_nanos, sorted[k].date.offset_seconds)),
    ensures
        forall|a: int, b: int| 0 <= a <= b < sorted.len() ==> #[trigger] year_keys(sorted)[b] <= #[trigger] year_keys(sorted)[a],
{
    let order = choose|order: Seq<usize>| {
        &&& #[trigger] is_stable_order(newest_first_keys(events), order)
        &&& sorted.len() == events.len()
        &&& forall|k: int| 0 <= k < sorted.len() ==> #[trigger] sorted[k] == events[order[k] as int]
    };
    let keys = newest_first_keys(events);
    assert forall|a: int, b: int| 0 <= a <= b < sorted.len() implies #[trigger] year_keys(sorted)[b]
        <= #[trigger] year_keys(sorted)[a] by {
        if a < b {
            let ia = order[a] as int;
            let ib = order[b] as int;
            assert(sorted[a] == events[ia] && sorted[b] == events[ib]);
            assert(0 <= ia < events.len() && 0 <= ib < events.len());
            assert(keys[ia] <= keys[ib]);
            assert(events[ia].date.wf() && events[ib].date.wf());
            assert(sorted[b].date.unix_nanos <= sorted[a].date.unix_nanos);
            if ia < ib {
                assert(events[ia].date.offset_seconds == events[ib].date.offset_seconds);
            } else if ib < ia {
                assert(events[ib].date.offset_seconds == events[ia].date.offset_seconds);
            }
            assert(no_earlier_year_after(sorted[b].date,
                local_date_of(sorted[b].date.unix_nanos, sorted[b].date.offset_seconds)));
            let u = sorted[a].date.unix_nanos;
            assert(u <= LATEST_UNIX_NANOS);
            assert(local_date_of(u, sorted[b].date.offset_seconds).year >= year_of(sorted[b]));
        }
    }
}

/// The archive: the events grouped by year, and the current year.
#[derive(Debug)]
pub struct ArchivePage<T> {
    pub events_by_year: Vec<EventsGroup<T>>,
    pub current_year: i32,
}

impl<T> ArchivePage<T> {
    /// The archive of `events` as seen at `now`.
    pub fn from_events_at(events: Vec<ArchivedEvent<T>>, now: Timestamp) -> (page: ArchivePage<T>)
        requires
            all_dated(events@),
            now.wf(),
        ensures
            page.current_year == local_date_of(now.unix_nanos, now.offset_seconds).year,
            exists|sorted: Seq<ArchivedEvent<T>>| #[trigger] is_newest_first(events@, sorted)
                && groups_by_year(page.events_by_year@, sorted),
            same_offset(events@) ==> years_decrease(page.events_by_year@),
    {
        let current_year = now.date().year;
        ArchivePage { events_by_year: group_events_by_year(events), current_year }
    }

    /// The archive of `events` as seen now in UTC; `None` where the clock lies
    /// outside the range of the `time` crate.
    pub fn from_events(events: Vec<ArchivedEvent<T>>) -> (page: Option<ArchivePage<T>>)
        requires
            all_dated(events@),
        ensures
            page matches Some(p) ==> exists|sorted: Seq<ArchivedEvent<T>>| #[trigger] is_newest_first(events@, sorted)
                && groups_by_year(p.events_by_year@, sorted),
            same_offset(events@) ==> (page matches Some(p) ==> years_decrease(p.events_by_year@)),
            page matches Some(p) ==> exists|r: i128| #[trigger] is_clock_reading(r) && p.current_year == local_date_of(r, 0).year,
            page is None ==> exists|r: i128| #[trigger] is_clock_reading(r) && !in_time_range(r as int),
    {
        match now_utc() {
            Some(now) => {
                assert(is_clock_reading(now.unix_nanos) && now.offset_seconds == 0);
                Some(Self::from_events_at(events, now))
            },
            None => None,
        }
    }
}

} // verus!
