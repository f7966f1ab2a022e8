//! The calendar of the new-poll form: a run of days from today, grouped by month,
//! each day filled in from what the form held before.
use vstd::prelude::*;
use crate::clock::{
    month_name, month_name_of, next_date, next_date_of, valid_date, weekday_index_of, weekday_name,
    weekday_name_of, CalendarDate, TimeOfDay, Timestamp,
};
use crate::grouping::{is_runs_of, runs_of_equal_keys};

verus! {

/// A day of the form as it was filled in: whether it is offered, and when it starts.
#[derive(Debug, Copy, Clone, PartialEq, Eq, Structural)]
pub struct CalendarDayPrefill {
    pub date: CalendarDate,
    pub enabled: bool,
    pub start_time: Option<TimeOfDay>,
}

/// A day that is not offered and has no start time.
pub open spec fn empty_prefill(date: CalendarDate) -> CalendarDayPrefill {
    CalendarDayPrefill { date, enabled: false, start_time: None }
}

impl CalendarDayPrefill {
    pub fn empty(date: CalendarDate) -> (prefill: CalendarDayPrefill)
        ensures
            prefill == empty_prefill(date),
    {
        CalendarDayPrefill { date, enabled: false, start_time: None }
    }
}

/// The first of `options` for the date, or an empty day where there is none.
pub open spec fn prefill_for(options: Seq<CalendarDayPrefill>, date: CalendarDate) -> CalendarDayPrefill
    decreases options.len(),
{
    if options.len() == 0 {
        empty_prefill(date)
    } else if options[0].date == date {
        options[0]
    } else {
        prefill_for(options.drop_first(), date)
    }
}

/// How the form fills in `date`: as the first day of `options` with that date, else empty.
pub fn find_prefill(options: &[CalendarDayPrefill], date: CalendarDate) -> (prefill: CalendarDayPrefill)
    ensures
        prefill == prefill_for(options@, date),
{
    let mut i: usize = 0;
    assert(options@.skip(0) =~= options@);
    while i < options.len()
        invariant
            i <= options@.len(),
            prefill_for(options@.skip(i as int), date) == prefill_for(options@, date),
        decreases options@.len() - i,
    {
        assert(options@.skip(i as int).drop_first() =~= options@.skip(i + 1));
        if options[i].date == date {
            return options[i];
        }
        i = i + 1;
    }
    CalendarDayPrefill::empty(date)
}

/// One day of the calendar.
#[derive(Debug)]
pub struct CalendarDay {
    pub date: CalendarDate,
    pub day: u8,
    pub weekday: String,
    pub prefill: CalendarDayPrefill,
}

/// The days of the calendar that fall in one month.
#[derive(Debug)]
pub struct CalendarMonth {
    pub name: String,
    pub days: Vec<CalendarDay>,
}

/// The calendar: its months, in order.
#[derive(Debug)]
pub struct Calendar {
    pub months: Vec<CalendarMonth>,
}

/// `day` shows `date`, filled in from `options`.
pub open spec fn shows_day(day: CalendarDay, date: CalendarDate, options: Seq<CalendarDayPrefill>) -> bool {
    &&& day.date == date
    &&& day.day == date.day
    &&& day.weekday@ == weekday_name_of(weekday_index_of(date))
    &&& day.prefill == prefill_for(options, date)
}

/// `month` is named after `month_number` and shows `dates`, in order.
pub open spec fn shows_month(month: CalendarMonth, month_number: u8, dates: Seq<CalendarDate>, options: Seq<CalendarDayPrefill>) -> bool {
    &&& month.name@ == month_name_of(month_number)
    &&& month.days@.len() == dates.len()
    &&& forall|k: int| 0 <= k < dates.len() ==> shows_day(#[trigger] month.days@[k], dates[k], options)
}

/// A day of the calendar for `date`.
pub fn to_calendar_day(date: CalendarDate, options: &[CalendarDayPrefill]) -> (day: CalendarDay)
    requires
        valid_date(date),
    ensures
        shows_day(day, date, options@),
{
    CalendarDay { date, day: date.day, weekday: weekday_name(date), prefill: find_prefill(options, date) }
}

/// A month of the calendar with the given days.
pub fn to_calendar_month(month: u8, days: &[CalendarDate], options: &[CalendarDayPrefill]) -> (calendar_month: CalendarMonth)
    requires
        1 <= month <= 12,
        forall|k: int| 0 <= k < days@.len() ==> valid_date(#[trigger] days@[k]),
    ensures
        shows_month(calendar_month, month, days@, options@),
{
    let mut calendar_days: Vec<CalendarDay> = Vec::new();
    let mut k: usize = 0;
    while k < days.len()
        invariant
            k <= days@.len(),
            forall|j: int| 0 <= j < days@.len() ==> valid_date(#[trigger] days@[j]),
            calendar_days@.len() == k,
            forall|j: int| 0 <= j < k ==> shows_day(#[trigger] calendar_days@[j], days@[j], options@),
        decreases days@.len() - k,
    {
        calendar_days.push(to_calendar_day(days[k], options));
        k = k + 1;
    }
    CalendarMonth { name: month_name(month), days: calendar_days }
}

/// `n` days from `d` on, each the day after the one before, fewer where the
/// dates that the `time` crate can hold end first.
pub open spec fn dates_from(d: CalendarDate, n: nat) -> Seq<CalendarDate>
    decreases n,
{
    if n == 0 {
        Seq::empty()
    } else {
        seq![d] + match next_date_of(d) {
            Some(e) => dates_from(e, (n - 1) as nat),
            None => Seq::empty(),
        }
    }
}

/// The month of each date, as a key.
pub open spec fn month_keys(dates: Seq<CalendarDate>) -> Seq<i64> {
    dates.map_values(|d: CalendarDate| d.month as i64)
}

/// `months` shows `dates` split into its runs of days of the same month.
pub open spec fn shows_months(months: Seq<CalendarMonth>, dates: Seq<CalendarDate>, options: Seq<CalendarDayPrefill>) -> bool {
    exists|runs: Seq<(usize, usize)>| {
        &&& #[trigger] is_runs_of(month_keys(dates), runs)
        &&& months.len() == runs.len()
        &&& forall|m: int| 0 <= m < runs.len() ==> shows_month(#[trigger] months[m], dates[runs[m].0 as int].month,
            dates.subrange(runs[m].0 as int, runs[m].1 as int), options)
    }
}

impl Calendar {
    /// The calendar of `days` days from the date of `start` on, grouped into months,
    /// each day filled in from `options`.
    pub fn generate(start: Timestamp, days: usize, options: &[CalendarDayPrefill]) -> (calendar: Calendar)
        requires
            start.wf(),
        ensures
            shows_months(calendar.months@, dates_from(crate::clock::local_date_of(start.unix_nanos, start.offset_seconds), days as nat), options@),
    {
        let first = start.date();
        let ghost all = dates_from(first, days as nat);
        let mut dates: Vec<CalendarDate> = Vec::new();
        let mut current: Option<CalendarDate> = Some(first);
        let mut i: usize = 0;
        while i < days && current.is_some()
            invariant
                i <= days,
                dates@.len() == i,
                current matches Some(c) ==> valid_date(c),
                forall|j: int| 0 <= j < dates@.len() ==> valid_date(#[trigger] dates@[j]),
                all == dates_from(first, days as nat),
                all == dates@ + match current {
                    Some(c) => dates_from(c, (days - i) as nat),
                    None => Seq::empty(),
                },
            decreases days - i,
        {
            match current {
                Some(c) => {
                    let ghost rest = dates_from(c, (days - i) as nat);
                    assert(rest == seq![c] + match next_date_of(c) {
                        Some(e) => dates_from(e, (days - i - 1) as nat),
                        None => Seq::<CalendarDate>::empty(),
                    });
                    dates.push(c);
                    current = next_date(c);
                    i = i + 1;
                    assert(all =~= dates@ + match current {
                        Some(c) => dates_from(c, (days - i) as nat),
                        None => Seq::empty(),
                    });
                },
                None => {},
            }
        }
        assert(all =~= dates@) by {
            if current is Some {
                assert(i == days);
            }
        }
        let mut keys: Vec<i64> = Vec::new();
        let mut j: usize = 0;
        while j < dates.len()
            invariant
                j <= dates@.len(),
                keys@ == month_keys(dates@).take(j as int),
            decreases dates@.len() - j,
        {
            keys.push(dates[j].month as i64);
            j = j + 1;
            assert(keys@ =~= month_keys(dates@).take(j as int));
        }
        assert(keys@ =~= month_keys(dates@));
        let runs = runs_of_equal_keys(keys.as_slice());
        let mut months: Vec<CalendarMonth> = Vec::new();
        let mut m: usize = 0;
        while m < runs.len()
            invariant
                m <= runs@.len(),
                is_runs_of(month_keys(dates@), runs@),
                forall|j: int| 0 <= j < dates@.len() ==> valid_date(#[trigger] dates@[j]),
                months@.len() == m,
                forall|r: int| 0 <= r < m ==> shows_month(#[trigger] months@[r], dates@[runs@[r].0 as int].month,
                    dates@.subrange(runs@[r].0 as int, runs@[r].1 as int), options@),
            decreases runs@.len() - m,
        {
            let (from, to) = runs[m];
            assert(runs@[m as int].0 < runs@[m as int].1 <= dates@.len());
            let mut run: Vec<CalendarDate> = Vec::new();
            let mut k: usize = from;
            while k < to
                invariant
                    from <= k <= to <= dates@.len(),
                    run@ == dates@.subrange(from as int, k as int),
                decreases to - k,
            {
                run.push(dates[k]);
                k = k + 1;
                assert(run@ =~= dates@.subrange(from as int, k as int));
            }
            let month = to_calendar_month(dates[from].month, run.as_slice(), options);
            months.push(month);
            m = m + 1;
        }
        Calendar { months }
    }
}

} // verus!
