//! The evaluation of a timesheet: how far each day, each week and the whole
//! sheet are above or below the time that was due.

use vstd::prelude::*;
use crate::clock::{clock_gap, ClockTime};
use crate::delta::{
    checked, checked_sum, maybe_nanos, negated, total_of, Delta, NANOS_PER_HOUR, NANOS_PER_MINUTE,
};
use crate::pack_trees::{values_view, Model};
use crate::timesheet::{
    BreakLog, Date, Day, DayName, DayView, Days, Hours, HoursMinutes, LeaveLog, Log, LogEvent,
    LunchLog, Minutes, Period, Time, TimePeriod, TimeRange, TimeRangeEnd, Week, WeekView, Weeks,
    WorkLog, WorkingDayLog,
};

verus! {

/// The time that is due on a working day: eight hours, in nanoseconds.
pub const WORKING_DAY_NANOS: i128 = 28_800_000_000_000;

/// How far a day is above or below the time that was due.
#[derive(Debug)]
pub struct DayDelta {
    pub weekday: String,
    pub delta: Delta,
    pub had_lunch: bool,
}

/// How far a week is above or below the time that was due, and its days.
#[derive(Debug)]
pub struct WeekDelta {
    pub starting_date: String,
    pub week_delta: Delta,
    pub day_deltas: Vec<DayDelta>,
}

/// How far the whole sheet is above or below the time that was due, with and
/// without the last day, and its weeks.
#[derive(Debug)]
pub struct TotalDelta {
    pub total_delta: Delta,
    pub total_delta_excluding_today: Delta,
    pub week_deltas: Vec<WeekDelta>,
}

/// The mathematical content of a [`DayDelta`]; the delta in nanoseconds.
pub struct DayDeltaView {
    pub weekday: Seq<char>,
    pub delta: int,
    pub had_lunch: bool,
}

/// The mathematical content of a [`WeekDelta`]; the delta in nanoseconds.
pub struct WeekDeltaView {
    pub starting_date: Seq<char>,
    pub week_delta: int,
    pub day_deltas: Seq<DayDeltaView>,
}

/// The mathematical content of a [`TotalDelta`]; the deltas in nanoseconds.
pub struct TotalDeltaView {
    pub total_delta: int,
    pub total_delta_excluding_today: int,
    pub week_deltas: Seq<WeekDeltaView>,
}

impl View for DayDelta {
    type V = DayDeltaView;

    open spec fn view(&self) -> DayDeltaView {
        DayDeltaView { weekday: self.weekday@, delta: self.delta@, had_lunch: self.had_lunch }
    }
}

impl View for WeekDelta {
    type V = WeekDeltaView;

    open spec fn view(&self) -> WeekDeltaView {
        WeekDeltaView {
            starting_date: self.starting_date@,
            week_delta: self.week_delta@,
            day_deltas: deltas_view(self.day_deltas@),
        }
    }
}

impl View for TotalDelta {
    type V = TotalDeltaView;

    open spec fn view(&self) -> TotalDeltaView {
        TotalDeltaView {
            total_delta: self.total_delta@,
            total_delta_excluding_today: self.total_delta_excluding_today@,
            week_deltas: deltas_view(self.week_deltas@),
        }
    }
}

/// The length of a period in nanoseconds, if it can be held: its hours, its
/// minutes, or the sum of both.
pub open spec fn period_nanos(period: Period) -> Option<int> {
    match period {
        Period::HoursMinutes(HoursMinutes(hours, Some(minutes))) => checked_sum(
            checked(hours.0.0 * NANOS_PER_HOUR),
            checked(minutes.0.0 * NANOS_PER_MINUTE),
        ),
        Period::HoursMinutes(HoursMinutes(hours, None)) => checked(hours.0.0 * NANOS_PER_HOUR),
        Period::Minutes(minutes) => checked(minutes.0.0 * NANOS_PER_MINUTE),
    }
}

/// The time of day at which a range ends: the one it names, or the present
/// moment.
pub open spec fn range_end(range: TimeRange, now: ClockTime) -> ClockTime {
    match range.1 {
        TimeRangeEnd::Time(Time(end)) => end,
        TimeRangeEnd::Now(_) => now,
    }
}

/// The length of a range in nanoseconds: from its start to its end. It is
/// negative where the end lies before the start.
pub open spec fn range_nanos(range: TimeRange, now: ClockTime) -> int {
    clock_gap(
        (range_end(range, now).seconds(), range_end(range, now).nanos()),
        (range.0.0.seconds(), range.0.0.nanos()),
    )
}

/// The length of a period or of a range in nanoseconds, if it can be held.
pub open spec fn time_period_nanos(period: TimePeriod, now: ClockTime) -> Option<int> {
    match period {
        TimePeriod::Period(period) => period_nanos(period),
        TimePeriod::TimeRange(range) => Some(range_nanos(range, now)),
    }
}

/// What a line adds to its day, in nanoseconds: work, a working day and leave
/// count for the day, a break and lunch against it.
pub open spec fn log_nanos(log: Log, now: ClockTime) -> Option<int> {
    match log.0 {
        LogEvent::Break(BreakLog(period)) => negated(time_period_nanos(period, now)),
        LogEvent::Leave(LeaveLog(period)) => time_period_nanos(period, now),
        LogEvent::Lunch(LunchLog(period)) => negated(time_period_nanos(period, now)),
        LogEvent::Work(WorkLog(period)) => time_period_nanos(period, now),
        LogEvent::WorkingDay(WorkingDayLog(period)) => time_period_nanos(period, now),
    }
}

/// What the lines add up to, one after the other, if every line and every sum
/// on the way can be held.
pub open spec fn logs_nanos(logs: Seq<Log>, now: ClockTime) -> Option<int>
    decreases logs.len(),
{
    if logs.len() == 0 {
        Some(0)
    } else {
        checked_sum(logs_nanos(logs.drop_last(), now), log_nanos(logs.last(), now))
    }
}

/// Whether one of the lines is a lunch.
pub open spec fn has_lunch(logs: Seq<Log>) -> bool {
    exists|i: int| 0 <= i < logs.len() && (#[trigger] logs[i]).0 is Lunch
}

/// The delta of a day: what its lines add up to, less the time that is due on
/// a working day.
pub open spec fn day_delta(day: DayView, now: ClockTime) -> Option<DayDeltaView> {
    match logs_nanos(day.logs, now) {
        None => None,
        Some(logged) => match checked(logged - WORKING_DAY_NANOS) {
            None => None,
            Some(delta) => Some(
                DayDeltaView { weekday: day.name, delta, had_lunch: has_lunch(day.logs) },
            ),
        },
    }
}

/// The deltas of the days, in order, if each of them can be held.
pub open spec fn day_deltas(days: Seq<DayView>, now: ClockTime) -> Option<Seq<DayDeltaView>>
    decreases days.len(),
{
    if days.len() == 0 {
        Some(Seq::empty())
    } else {
        match day_deltas(days.drop_last(), now) {
            None => None,
            Some(front) => match day_delta(days.last(), now) {
                None => None,
                Some(last) => Some(front.push(last)),
            },
        }
    }
}

/// The delta of a week: the deltas of its days, and their sum.
pub open spec fn week_delta(week: WeekView, now: ClockTime) -> Option<WeekDeltaView> {
    match day_deltas(week.days, now) {
        None => None,
        Some(days) => match total_of(days.map_values(|day: DayDeltaView| day.delta)) {
            None => None,
            Some(total) => Some(
                WeekDeltaView { starting_date: week.date, week_delta: total, day_deltas: days },
            ),
        },
    }
}

/// The deltas of the weeks, in order, if each of them can be held.
pub open spec fn week_deltas(weeks: Seq<WeekView>, now: ClockTime) -> Option<Seq<WeekDeltaView>>
    decreases weeks.len(),
{
    if weeks.len() == 0 {
        Some(Seq::empty())
    } else {
        match week_deltas(weeks.drop_last(), now) {
            None => None,
            Some(front) => match week_delta(weeks.last(), now) {
                None => None,
                Some(last) => Some(front.push(last)),
            },
        }
    }
}

/// The delta of the day that is being logged: the last day of the last week,
/// or nothing where the last week has no day or there is no week.
pub open spec fn today_delta(weeks: Seq<WeekDeltaView>) -> int {
    if weeks.len() > 0 && weeks.last().day_deltas.len() > 0 {
        weeks.last().day_deltas.last().delta
    } else {
        0
    }
}

/// The delta of the whole sheet: the deltas of its weeks, their sum, and the
/// sum without the day that is being logged.
pub open spec fn total_delta(weeks: Seq<WeekView>, now: ClockTime) -> Option<TotalDeltaView> {
    match week_deltas(weeks, now) {
        None => None,
        Some(deltas) => match total_of(deltas.map_values(|week: WeekDeltaView| week.week_delta)) {
            None => None,
            Some(total) => match checked(total - today_delta(deltas)) {
                None => None,
                Some(before_today) => Some(
                    TotalDeltaView {
                        total_delta: total,
                        total_delta_excluding_today: before_today,
                        week_deltas: deltas,
                    },
                ),
            },
        },
    }
}

/// The views of a sequence of evaluated values.
pub open spec fn deltas_view<T: View>(values: Seq<T>) -> Seq<T::V> {
    values.map_values(|value: T| value@)
}

/// The view of an evaluated value that may be missing.
pub open spec fn maybe_view<T: View>(value: Option<T>) -> Option<T::V> {
    match value {
        Some(value) => Some(value@),
        None => None,
    }
}

impl std::ops::Deref for Hours {
    type Target = i64;

    fn deref(&self) -> (hours: &i64)
        ensures
            *hours == self.0.0,
    {
        &self.0.0
    }
}

impl std::ops::Deref for Minutes {
    type Target = i64;

    fn deref(&self) -> (minutes: &i64)
        ensures
            *minutes == self.0.0,
    {
        &self.0.0
    }
}

impl Period {
    /// The length of the period, or `None` where it is too long to be held.
    pub fn evaluate(self) -> (delta: Option<Delta>)
        ensures
            maybe_nanos(delta) == period_nanos(self),
    {
        match self {
            Period::HoursMinutes(HoursMinutes(hours, Some(minutes))) => {
                match Delta::hours(*hours) {
                    None => None,
                    Some(hours) => match Delta::minutes(*minutes) {
                        None => None,
                        Some(minutes) => hours.checked_add(&minutes),
                    },
                }
            },
            Period::HoursMinutes(HoursMinutes(hours, None)) => Delta::hours(*hours),
            Period::Minutes(minutes) => Delta::minutes(*minutes),
        }
    }
}

impl TimeRange {
    /// The length of the range, from its start to its end; `now` is the end
    /// of a range that is still open.
    pub fn evaluate(self, now: ClockTime) -> (delta: Delta)
        ensures
            delta@ == range_nanos(self, now),
    {
        let TimeRange(Time(start), end) = self;
        let end = match end {
            TimeRangeEnd::Time(Time(end)) => end,
            TimeRangeEnd::Now(_) => now,
        };
        Delta::from_small_nanos(end.nanos_since(&start))
    }
}

impl TimePeriod {
    /// The length of the period or of the range.
    pub fn evaluate(self, now: ClockTime) -> (delta: Option<Delta>)
        ensures
            maybe_nanos(delta) == time_period_nanos(self, now),
    {
        match self {
            TimePeriod::Period(period) => period.evaluate(),
            TimePeriod::TimeRange(range) => Some(range.evaluate(now)),
        }
    }
}

/// The length of time with its sign turned, if it is there.
fn negate(delta: Option<Delta>) -> (negative: Option<Delta>)
    ensures
        maybe_nanos(negative) == negated(maybe_nanos(delta)),
{
    match delta {
        Some(delta) => Some(delta.neg()),
        None => None,
    }
}

impl Log {
    /// What the line adds to its day.
    pub fn evaluate(self, now: ClockTime) -> (delta: Option<Delta>)
        ensures
            maybe_nanos(delta) == log_nanos(self, now),
    {
        let Log(event) = self;
        match event {
            LogEvent::Break(BreakLog(period)) => negate(period.evaluate(now)),
            LogEvent::Leave(LeaveLog(period)) => period.evaluate(now),
            LogEvent::Lunch(LunchLog(period)) => negate(period.evaluate(now)),
            LogEvent::Work(WorkLog(period)) => period.evaluate(now),
            LogEvent::WorkingDay(WorkingDayLog(period)) => period.evaluate(now),
        }
    }
}

/// Whether one of the lines is a lunch.
fn any_lunch(logs: &Vec<Log>) -> (found: bool)
    ensures
        found == has_lunch(logs@),
{
    let mut i: usize = 0;
    while i < logs.len()
        invariant
            i <= logs.len(),
            forall|j: int| 0 <= j < i ==> !((#[trigger] logs@[j]).0 is Lunch),
        decreases logs.len() - i,
    {
        match logs[i].0 {
            LogEvent::Lunch(_) => {
                return true;
            },
            _ => {},
        }
        i += 1;
    }
    false
}

/// Once the lines up to a place cannot be added up, neither can all of them.
proof fn lemma_logs_nanos_prefix(logs: Seq<Log>, now: ClockTime, n: int)
    requires
        0 <= n <= logs.len(),
        logs_nanos(logs.take(n), now) is None,
    ensures
        logs_nanos(logs, now) is None,
    decreases logs.len() - n,
{
    if n == logs.len() {
        assert(logs.take(n) =~= logs);
    } else {
        assert(logs.take(n + 1).drop_last() =~= logs.take(n));
        lemma_logs_nanos_prefix(logs, now, n + 1);
    }
}

/// What the lines add up to.
fn sum_logs(logs: &Vec<Log>, now: ClockTime) -> (sum: Option<Delta>)
    ensures
        maybe_nanos(sum) == logs_nanos(values_view(logs@), now),
{
    let ghost all = values_view(logs@);
    let mut sum = Delta::zero();
    let mut i: usize = 0;
    assert(all.take(0) =~= Seq::empty());
    while i < logs.len()
        invariant
            i <= logs.len(),
            all == values_view(logs@),
            logs_nanos(all.take(i as int), now) == Some(sum@),
        decreases logs.len() - i,
    {
        assert(all.take(i + 1).drop_last() =~= all.take(i as int));
        assert(all.take(i + 1).last() == logs@[i as int]);
        let next = match logs[i].evaluate(now) {
            None => None,
            Some(delta) => sum.checked_add(&delta),
        };
        match next {
            None => {
                proof {
                    lemma_logs_nanos_prefix(all, now, i + 1);
                }
                return None;
            },
            Some(next) => {
                sum = next;
            },
        }
        i += 1;
    }
    assert(all.take(i as int) =~= all);
    Some(sum)
}

impl Day {
    /// The delta of the day: what its lines add up to, less the time that is
    /// due on a working day. `None` where a length of time on the way is too
    /// long to be held.
    pub fn evaluate(self, now: ClockTime) -> (delta: Option<DayDelta>)
        ensures
            maybe_view(delta) == day_delta(self.model(), now),
    {
        let Day(DayName(weekday), logs) = self;
        let had_lunch = any_lunch(&logs);
        assert(values_view(logs@) =~= logs@);
        match sum_logs(&logs, now) {
            None => None,
            Some(logged) => {
                let due = Delta::from_small_nanos(28_800_000_000_000);
                match logged.checked_sub(&due) {
                    None => None,
                    Some(delta) => Some(DayDelta { had_lunch, weekday, delta }),
                }
            },
        }
    }
}

/// Once the days up to a place cannot be evaluated, neither can all of them.
proof fn lemma_day_deltas_prefix(days: Seq<DayView>, now: ClockTime, n: int)
    requires
        0 <= n <= days.len(),
        day_deltas(days.take(n), now) is None,
    ensures
        day_deltas(days, now) is None,
    decreases days.len() - n,
{
    if n == days.len() {
        assert(days.take(n) =~= days);
    } else {
        assert(days.take(n + 1).drop_last() =~= days.take(n));
        lemma_day_deltas_prefix(days, now, n + 1);
    }
}

/// Once the weeks up to a place cannot be evaluated, neither can all of them.
proof fn lemma_week_deltas_prefix(weeks: Seq<WeekView>, now: ClockTime, n: int)
    requires
        0 <= n <= weeks.len(),
        week_deltas(weeks.take(n), now) is None,
    ensures
        week_deltas(weeks, now) is None,
    decreases weeks.len() - n,
{
    if n == weeks.len() {
        assert(weeks.take(n) =~= weeks);
    } else {
        assert(weeks.take(n + 1).drop_last() =~= weeks.take(n));
        lemma_week_deltas_prefix(weeks, now, n + 1);
    }
}

/// Once the lengths of time up to a place cannot be added up, neither can all
/// of them.
proof fn lemma_total_of_prefix(nanos: Seq<int>, n: int)
    requires
        0 <= n <= nanos.len(),
        total_of(nanos.take(n)) is None,
    ensures
        total_of(nanos) is None,
    decreases nanos.len() - n,
{
    if n == nanos.len() {
        assert(nanos.take(n) =~= nanos);
    } else {
        assert(nanos.take(n + 1).drop_last() =~= nanos.take(n));
        lemma_total_of_prefix(nanos, n + 1);
    }
}

/// The sum of the deltas of the days.
fn sum_days(days: &Vec<DayDelta>) -> (sum: Option<Delta>)
    ensures
        maybe_nanos(sum) == total_of(
            deltas_view(days@).map_values(|day: DayDeltaView| day.delta),
        ),
{
    let ghost all = deltas_view(days@).map_values(|day: DayDeltaView| day.delta);
    let mut sum = Delta::zero();
    let mut i: usize = 0;
    assert(all.take(0) =~= Seq::empty());
    while i < days.len()
        invariant
            i <= days.len(),
            all == deltas_view(days@).map_values(|day: DayDeltaView| day.delta),
            total_of(all.take(i as int)) == Some(sum@),
        decreases days.len() - i,
    {
        assert(all.take(i + 1).drop_last() =~= all.take(i as int));
        assert(all.take(i + 1).last() == days@[i as int].delta@);
        match sum.checked_add(&days[i].delta) {
            None => {
                proof {
                    lemma_total_of_prefix(all, i + 1);
                }
                return None;
            },
            Some(next) => {
                sum = next;
            },
        }
        i += 1;
    }
    assert(all.take(i as int) =~= all);
    Some(sum)
}

/// The sum of the deltas of the weeks.
fn sum_weeks(weeks: &Vec<WeekDelta>) -> (sum: Option<Delta>)
    ensures
        maybe_nanos(sum) == total_of(
            deltas_view(weeks@).map_values(|week: WeekDeltaView| week.week_delta),
        ),
{
    let ghost all = deltas_view(weeks@).map_values(|week: WeekDeltaView| week.week_delta);
    let mut sum = Delta::zero();
    let mut i: usize = 0;
    assert(all.take(0) =~= Seq::empty());
    while i < weeks.len()
        invariant
            i <= weeks.len(),
            all == deltas_view(weeks@).map_values(|week: WeekDeltaView| week.week_delta),
            total_of(all.take(i as int)) == Some(sum@),
        decreases weeks.len() - i,
    {
        assert(all.take(i + 1).drop_last() =~= all.take(i as int));
        assert(all.take(i + 1).last() == weeks@[i as int].week_delta@);
        match sum.checked_add(&weeks[i].week_delta) {
            None => {
                proof {
                    lemma_total_of_prefix(all, i + 1);
                }
                return None;
            },
            Some(next) => {
                sum = next;
            },
        }
        i += 1;
    }
    assert(all.take(i as int) =~= all);
    Some(sum)
}

/// The delta of a week: the deltas of its days, and their sum. `None` where a
/// length of time on the way is too long to be held.
pub fn eval_week(week: Week, now: ClockTime) -> (delta: Option<WeekDelta>)
    ensures
        maybe_view(delta) == week_delta(week.model(), now),
{
    let Week(Date(starting_date), Days(days)) = week;
    let ghost all = values_view(days@);
    let mut day_deltas: Vec<DayDelta> = Vec::new();
    assert(all.take(0) =~= Seq::empty());
    assert(deltas_view(day_deltas@) =~= Seq::empty());
    for day in iter: days
        invariant
            all == values_view(iter.seq()),
            all == week.model().days,
            self::day_deltas(all.take(iter.index() as int), now) == Some(
                deltas_view(day_deltas@),
            ),
    {
        let ghost at = iter.index() as int;
        let ghost before = day_deltas@;
        assert(all.take(at + 1).drop_last() =~= all.take(at));
        assert(all.take(at + 1).last() == day.model());
        match day.evaluate(now) {
            None => {
                proof {
                    lemma_day_deltas_prefix(all, now, at + 1);
                }
                return None;
            },
            Some(delta) => {
                day_deltas.push(delta);
                assert(deltas_view(day_deltas@) =~= deltas_view(before).push(delta@));
            },
        }
    }
    assert(all.take(all.len() as int) =~= all);
    match sum_days(&day_deltas) {
        None => None,
        Some(week_delta) => Some(WeekDelta { starting_date, week_delta, day_deltas }),
    }
}

/// The delta of the day that is being logged: the last day of the last
/// week, or no time at all where there is no such day.
pub fn get_today_delta(week_deltas: &Vec<WeekDelta>) -> (delta: Delta)
    ensures
        delta@ == today_delta(deltas_view(week_deltas@)),
{
    if week_deltas.len() > 0 {
        let last = &week_deltas[week_deltas.len() - 1];
        assert(deltas_view(week_deltas@).last() == last@);
        if last.day_deltas.len() > 0 {
            let day = &last.day_deltas[last.day_deltas.len() - 1];
            assert(deltas_view(last.day_deltas@).last() == day@);
            day.delta
        } else {
            Delta::zero()
        }
    } else {
        Delta::zero()
    }
}

/// The delta of the whole sheet: the deltas of its weeks, their sum, and the
/// sum without the day that is being logged, which is the last day of the
/// last week. `now` is the end of the ranges that are still open. `None`
/// where a length of time on the way is too long to be held.
pub fn evaluate_timesheets(weeks: Weeks, now: ClockTime) -> (delta: Option<TotalDelta>)
    ensures
        maybe_view(delta) == total_delta(weeks.model(), now),
{
    let Weeks(list) = weeks;
    let ghost all = values_view(list@);
    let mut week_deltas: Vec<WeekDelta> = Vec::new();
    assert(all.take(0) =~= Seq::empty());
    assert(deltas_view(week_deltas@) =~= Seq::empty());
    for week in iter: list
        invariant
            all == values_view(iter.seq()),
            all == weeks.model(),
            self::week_deltas(all.take(iter.index() as int), now) == Some(
                deltas_view(week_deltas@),
            ),
    {
        let ghost at = iter.index() as int;
        let ghost before = week_deltas@;
        assert(all.take(at + 1).drop_last() =~= all.take(at));
        assert(all.take(at + 1).last() == week.model());
        match eval_week(week, now) {
            None => {
                proof {
                    lemma_week_deltas_prefix(all, now, at + 1);
                }
                return None;
            },
            Some(delta) => {
                week_deltas.push(delta);
                assert(deltas_view(week_deltas@) =~= deltas_view(before).push(delta@));
            },
        }
    }
    assert(all.take(all.len() as int) =~= all);
    match sum_weeks(&week_deltas) {
        None => None,
        Some(total_delta) => {
            let today_delta = get_today_delta(&week_deltas);
            match total_delta.checked_sub(&today_delta) {
                None => None,
                Some(total_delta_excluding_today) => Some(
                    TotalDelta { total_delta, total_delta_excluding_today, week_deltas },
                ),
            }
        },
    }
}

} // verus!
