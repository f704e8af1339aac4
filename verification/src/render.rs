//! How the timesheet and its evaluation are shown.

use vstd::prelude::*;
use vstd::string::*;
use crate::clock::hours_and_minutes;
use crate::delta::{quotient_towards_zero, Delta, NANOS_PER_MINUTE, NANOS_PER_SECOND};
use crate::eval::{
    deltas_view, get_today_delta, today_delta, DayDelta, DayDeltaView, TotalDelta, TotalDeltaView,
    WeekDelta, WeekDeltaView,
};
use crate::term_render::{column_text, Block, Cell, CellView, Column, Segment};
use crate::text::{
    pad_text, padded, signed_decimal, signed_decimal_text, zero_fill_text, zero_filled,
};
use crate::timesheet::{
    HoursMinutes, Period, Time, TimePeriod, TimeRange, TimeRangeEnd, WorkingDayLog,
};

verus! {

/// The lunch that is still to be taken: half an hour, in nanoseconds.
pub const LUNCH_NANOS: i128 = 1_800_000_000_000;

/// The times of day at which the deadlines fall, as the clock shows them: the
/// moment at which all the time that is due has been worked, the moment at
/// which today's has, and both with a lunch on top. They are the clock less
/// the lengths of time of [`DeadlineOffsets`], each in its place.
#[derive(Debug)]
pub struct DeadlineTimes {
    pub finish: String,
    pub finish_after_lunch: String,
    pub retain: String,
    pub retain_after_lunch: String,
}

/// The mathematical content of [`DeadlineTimes`].
pub struct DeadlineTimesView {
    pub finish: Seq<char>,
    pub finish_after_lunch: Seq<char>,
    pub retain: Seq<char>,
    pub retain_after_lunch: Seq<char>,
}

impl View for DeadlineTimes {
    type V = DeadlineTimesView;

    open spec fn view(&self) -> DeadlineTimesView {
        DeadlineTimesView {
            finish: self.finish@,
            finish_after_lunch: self.finish_after_lunch@,
            retain: self.retain@,
            retain_after_lunch: self.retain_after_lunch@,
        }
    }
}

/// The lengths of time to take from the clock for the deadlines, in
/// nanoseconds: for the moment at which all the time that is due has been
/// worked, for the moment at which today's has, and for both with a lunch on
/// top. A length that is negative lies ahead of the clock.
#[derive(Debug, Clone, Copy)]
pub struct DeadlineOffsets {
    pub finish: i128,
    pub finish_after_lunch: i128,
    pub retain: i128,
    pub retain_after_lunch: i128,
}

/// The lengths of time to take from the clock for the deadlines of an
/// evaluated sheet: the delta of the whole sheet, and the delta of the day
/// that is being logged; with a lunch on top, each of them less half an hour.
pub open spec fn deadline_offsets(total: TotalDeltaView) -> DeadlineOffsets {
    DeadlineOffsets {
        finish: total.total_delta as i128,
        finish_after_lunch: (total.total_delta - LUNCH_NANOS) as i128,
        retain: today_delta(total.week_deltas) as i128,
        retain_after_lunch: (today_delta(total.week_deltas) - LUNCH_NANOS) as i128,
    }
}

/// The lengths of time to take from the clock for the deadlines of the
/// evaluated sheet. The deadline to finish falls at the clock less the delta
/// of the whole sheet, the deadline to keep the credit at the clock less the
/// delta of the day that is being logged, and with a lunch on top each falls
/// half an hour later.
pub fn get_deadline_offsets(total_delta: &TotalDelta) -> (offsets: DeadlineOffsets)
    ensures
        offsets == deadline_offsets(total_delta@),
        offsets.finish == total_delta@.total_delta,
        offsets.finish_after_lunch == total_delta@.total_delta - LUNCH_NANOS,
        offsets.retain == today_delta(total_delta@.week_deltas),
        offsets.retain_after_lunch == today_delta(total_delta@.week_deltas) - LUNCH_NANOS,
{
    let finish = total_delta.total_delta.num_nanoseconds();
    let retain = get_today_delta(&total_delta.week_deltas).num_nanoseconds();
    DeadlineOffsets {
        finish,
        finish_after_lunch: finish - LUNCH_NANOS,
        retain,
        retain_after_lunch: retain - LUNCH_NANOS,
    }
}

/// The absolute value.
pub open spec fn magnitude(n: int) -> int {
    if n < 0 {
        -n
    } else {
        n
    }
}

/// How a delta is shown: a sign, `-` where its whole minutes are negative and
/// `+` else, and then the whole minutes without their sign, as "Mm" below an
/// hour and as "H:MM" from an hour on, filled up with spaces to four
/// characters.
pub open spec fn delta_text(nanos: int) -> Seq<char> {
    let whole = quotient_towards_zero(nanos, NANOS_PER_MINUTE as int);
    let hours = magnitude(whole) / 60;
    let minutes = magnitude(whole) % 60;
    let sign = if whole < 0 {
        '-'
    } else {
        '+'
    };
    let time = if hours == 0 {
        signed_decimal(minutes) + "m"@
    } else {
        signed_decimal(hours) + ":"@ + zero_filled(signed_decimal(minutes), 2)
    };
    seq![sign] + padded(time, 4)
}

/// Shows a delta: its sign and its whole minutes, as minutes below an hour
/// and as hours and minutes from an hour on.
pub fn time_delta_to_string(delta: &Delta) -> (text: String)
    ensures
        text@ == delta_text(delta@),
{
    let whole = delta.num_minutes();
    let delta_in_minutes: i64 = if whole < 0 {
        -whole
    } else {
        whole
    };
    let hours = delta_in_minutes / 60;
    let minutes = delta_in_minutes % 60;
    let mut time = if hours == 0 {
        let mut time = signed_decimal_text(minutes);
        time.append("m");
        time
    } else {
        let mut time = signed_decimal_text(hours);
        time.append(":");
        time.append(zero_fill_text(signed_decimal_text(minutes).as_str(), 2).as_str());
        time
    };
    let mut text = if whole < 0 {
        String::from_str("-")
    } else {
        String::from_str("+")
    };
    proof {
        reveal_strlit("-");
        reveal_strlit("+");
        assert("-"@ =~= seq!['-']);
        assert("+"@ =~= seq!['+']);
    }
    text.append(pad_text(time.as_str(), 4).as_str());
    text
}

/// The cell of a day: its delta, and its name beside it.
pub open spec fn day_cell(day: DayDeltaView) -> CellView {
    CellView { figure: delta_text(day.delta), comment: day.weekday }
}

/// The box of a week: a heading with the delta of the week, and beneath it
/// the cells of its days.
pub open spec fn week_block(week: WeekDeltaView) -> Seq<Seq<CellView>> {
    seq![
        seq![
            CellView {
                figure: delta_text(week.week_delta),
                comment: "Week starting "@ + week.starting_date,
            },
        ],
        week.day_deltas.map_values(|day: DayDeltaView| day_cell(day)),
    ]
}

/// The lunch that is still to be taken today, in nanoseconds: half an hour
/// where the last day of the last week has no lunch, nothing where it has one
/// or where there is no such day.
pub open spec fn lunch_if_not_taken(weeks: Seq<WeekDeltaView>) -> Option<int> {
    if weeks.len() > 0 && weeks.last().day_deltas.len() > 0
        && !weeks.last().day_deltas.last().had_lunch {
        Some(LUNCH_NANOS as int)
    } else {
        None
    }
}

/// The cells of a deadline: the time at which it falls, and the time at which
/// it falls with a lunch on top, where there is one.
pub open spec fn deadline_segment(
    deadline: Seq<char>,
    deadline_with_lunch: Option<Seq<char>>,
    message: Seq<char>,
) -> Seq<CellView> {
    let first = CellView { figure: deadline, comment: message };
    match deadline_with_lunch {
        Some(with_lunch) => seq![
            first,
            CellView { figure: with_lunch, comment: message + " + LUNCH"@ },
        ],
        None => seq![first],
    }
}

/// The time with a lunch on top, where a lunch is still to be taken.
pub open spec fn with_lunch(weeks: Seq<WeekDeltaView>, time: Seq<char>) -> Option<Seq<char>> {
    match lunch_if_not_taken(weeks) {
        Some(_) => Some(time),
        None => None,
    }
}

/// The box of the deadlines: the earliest time to finish, and the time from
/// which today's credit is kept.
pub open spec fn deadline_block(total: TotalDeltaView, times: DeadlineTimesView) -> Seq<
    Seq<CellView>,
> {
    seq![
        deadline_segment(
            times.finish,
            with_lunch(total.week_deltas, times.finish_after_lunch),
            "EARLIEST FINISH TIME"@,
        ),
        deadline_segment(
            times.retain,
            with_lunch(total.week_deltas, times.retain_after_lunch),
            "RETAIN CREDIT"@,
        ),
    ]
}

/// "CREDIT" for a delta of a whole second and more, "DEFICIT" else.
pub open spec fn credit_text(nanos: int) -> Seq<char> {
    if quotient_towards_zero(nanos, NANOS_PER_SECOND as int) > 0 {
        "CREDIT"@
    } else {
        "DEFICIT"@
    }
}

/// The box of the totals: before today, and now.
pub open spec fn summary_block(total: TotalDeltaView) -> Seq<Seq<CellView>> {
    seq![
        seq![
            CellView {
                figure: delta_text(total.total_delta_excluding_today),
                comment: "TOTAL "@ + credit_text(total.total_delta_excluding_today)
                    + " BEFORE TODAY"@,
            },
        ],
        seq![
            CellView {
                figure: delta_text(total.total_delta),
                comment: "TOTAL "@ + credit_text(total.total_delta) + " NOW"@,
            },
        ],
    ]
}

/// The last four of the weeks, or all of them where there are fewer.
pub open spec fn last_four<T>(weeks: Seq<T>) -> Seq<T> {
    if weeks.len() > 4 {
        weeks.skip(weeks.len() - 4)
    } else {
        weeks
    }
}

/// The column of an evaluated sheet: the boxes of its last four weeks, the
/// box of the totals, and the box of the deadlines.
pub open spec fn total_column(total: TotalDeltaView, times: DeadlineTimesView) -> Seq<
    Seq<Seq<CellView>>,
> {
    last_four(total.week_deltas).map_values(|week: WeekDeltaView| week_block(week)) + seq![
        summary_block(total),
        deadline_block(total, times),
    ]
}

/// The text of an evaluated sheet: a note where weeks are left out, and the
/// column.
pub open spec fn total_text(total: TotalDeltaView, times: DeadlineTimesView) -> Seq<char> {
    if total.week_deltas.len() > 4 {
        "\n      . . .   Previous weeks truncated\n\n"@ + column_text(total_column(total, times))
    } else {
        column_text(total_column(total, times))
    }
}

impl Cell {
    /// The cell of a day: its delta, and its name beside it.
    pub fn from(day: &DayDelta) -> (cell: Cell)
        ensures
            cell@ == day_cell(day@),
    {
        Cell { figure: time_delta_to_string(&day.delta), comment: day.weekday.clone() }
    }
}

impl Block {
    /// The box of a week: a heading with the delta of the week, and beneath
    /// it the cells of its days.
    pub fn from(week: &WeekDelta) -> (block: Block)
        ensures
            block@ == week_block(week@),
    {
        let mut comment = String::from_str("Week starting ");
        comment.append(week.starting_date.as_str());
        let mut heading: Vec<Cell> = Vec::new();
        heading.push(Cell { figure: time_delta_to_string(&week.week_delta), comment });
        let mut days: Vec<Cell> = Vec::new();
        let mut i: usize = 0;
        while i < week.day_deltas.len()
            invariant
                i <= week.day_deltas.len(),
                days@.len() == i,
                forall|j: int| 0 <= j < i ==> (#[trigger] days@[j])@ == day_cell(week.day_deltas@[j]@),
            decreases week.day_deltas.len() - i,
        {
            days.push(Cell::from(&week.day_deltas[i]));
            i += 1;
        }
        let heading = Segment(heading);
        let days = Segment(days);
        assert(heading@ =~= week_block(week@)[0]);
        assert(days@ =~= week_block(week@)[1]);
        let mut segments: Vec<Segment> = Vec::new();
        segments.push(heading);
        segments.push(days);
        let block = Block(segments);
        assert(block@ =~= week_block(week@));
        block
    }
}

/// The lunch that is still to be taken today: half an hour where the last day
/// of the last week has no lunch.
pub fn get_lunch_if_not_taken(week_deltas: &Vec<WeekDelta>) -> (lunch: Option<Delta>)
    ensures
        crate::delta::maybe_nanos(lunch) == lunch_if_not_taken(deltas_view(week_deltas@)),
{
    if week_deltas.len() > 0 {
        let last = &week_deltas[week_deltas.len() - 1];
        assert(deltas_view(week_deltas@).last() == last@);
        if last.day_deltas.len() > 0 {
            let day = &last.day_deltas[last.day_deltas.len() - 1];
            assert(deltas_view(last.day_deltas@).last() == day@);
            if !day.had_lunch {
                return Some(Delta::from_small_nanos(1_800_000_000_000));
            }
        }
    }
    None
}

/// The cells of a deadline: the time at which it falls, and the time at which
/// it falls with a lunch on top, where there is one.
pub fn get_deadline_segment(deadline: &str, deadline_with_lunch: Option<&str>, message: &str) -> (segment:
    Segment)
    ensures
        segment@ == deadline_segment(
            deadline@,
            match deadline_with_lunch {
                Some(time) => Some(time@),
                None => None,
            },
            message@,
        ),
{
    let mut cells: Vec<Cell> = Vec::new();
    cells.push(Cell { figure: String::from_str(deadline), comment: String::from_str(message) });
    match deadline_with_lunch {
        Some(lunch) => {
            let mut comment = String::from_str(message);
            comment.append(" + LUNCH");
            cells.push(Cell { figure: String::from_str(lunch), comment });
        },
        None => {},
    }
    let segment = Segment(cells);
    assert(segment@ =~= deadline_segment(
        deadline@,
        match deadline_with_lunch {
            Some(time) => Some(time@),
            None => None,
        },
        message@,
    ));
    segment
}

/// The box of the deadlines. The times of day are handed in as the clock
/// shows them; those with a lunch on top are shown where today's lunch is
/// still to be taken.
pub fn get_deadline_block(total_delta: &TotalDelta, times: &DeadlineTimes) -> (block: Block)
    ensures
        block@ == deadline_block(total_delta@, times@),
{
    let lunch = get_lunch_if_not_taken(&total_delta.week_deltas);
    let (finish_after_lunch, retain_after_lunch) = match lunch {
        Some(_) => (Some(times.finish_after_lunch.as_str()), Some(times.retain_after_lunch.as_str())),
        None => (None, None),
    };
    let mut segments: Vec<Segment> = Vec::new();
    segments.push(
        get_deadline_segment(times.finish.as_str(), finish_after_lunch, "EARLIEST FINISH TIME"),
    );
    segments.push(get_deadline_segment(times.retain.as_str(), retain_after_lunch, "RETAIN CREDIT"));
    let block = Block(segments);
    assert(block@ =~= deadline_block(total_delta@, times@));
    block
}

/// "CREDIT" for a delta of a whole second and more, "DEFICIT" else.
fn get_credit_str(delta: &Delta) -> (text: &'static str)
    ensures
        text@ == credit_text(delta@),
{
    if delta.num_seconds() > 0 {
        "CREDIT"
    } else {
        "DEFICIT"
    }
}

/// The box of the totals: before today, and now.
fn get_summary_block(value: &TotalDelta) -> (block: Block)
    ensures
        block@ == summary_block(value@),
{
    let mut before = String::from_str("TOTAL ");
    before.append(get_credit_str(&value.total_delta_excluding_today));
    before.append(" BEFORE TODAY");
    let mut now = String::from_str("TOTAL ");
    now.append(get_credit_str(&value.total_delta));
    now.append(" NOW");
    let mut first: Vec<Cell> = Vec::new();
    first.push(
        Cell { figure: time_delta_to_string(&value.total_delta_excluding_today), comment: before },
    );
    let mut second: Vec<Cell> = Vec::new();
    second.push(Cell { figure: time_delta_to_string(&value.total_delta), comment: now });
    let first = Segment(first);
    let second = Segment(second);
    assert(first@ =~= summary_block(value@)[0]);
    assert(second@ =~= summary_block(value@)[1]);
    let mut segments: Vec<Segment> = Vec::new();
    segments.push(first);
    segments.push(second);
    let block = Block(segments);
    assert(block@ =~= summary_block(value@));
    block
}

impl Column {
    /// The column of an evaluated sheet: the boxes of its last four weeks,
    /// the box of the totals, and the box of the deadlines.
    pub fn from(value: &TotalDelta, times: &DeadlineTimes) -> (column: Column)
        ensures
            column@ == total_column(value@, times@),
    {
        let count = value.week_deltas.len();
        let first: usize = if count > 4 {
            count - 4
        } else {
            0
        };
        let ghost shown = last_four(deltas_view(value.week_deltas@));
        let mut blocks: Vec<Block> = Vec::new();
        let mut i: usize = first;
        while i < count
            invariant
                first <= i <= count,
                count == value.week_deltas.len(),
                first == if count > 4 {
                    count - 4
                } else {
                    0
                },
                blocks@.len() == i - first,
                forall|j: int|
                    0 <= j < i - first ==> (#[trigger] blocks@[j])@ == week_block(
                        value.week_deltas@[first + j]@,
                    ),
            decreases count - i,
        {
            blocks.push(Block::from(&value.week_deltas[i]));
            i += 1;
        }
        let ghost weeks = blocks@;
        assert(weeks.map_values(|block: Block| block@) =~= shown.map_values(
            |week: WeekDeltaView| week_block(week),
        ));
        blocks.push(get_summary_block(value));
        blocks.push(get_deadline_block(value, times));
        let column = Column(blocks);
        assert(column@ =~= total_column(value@, times@));
        column
    }
}

impl TotalDelta {
    /// The text of the evaluated sheet: a note where it has more than four
    /// weeks, of which only the last four are shown, and the column.
    pub fn render(&self, times: &DeadlineTimes) -> (text: String)
        ensures
            text@ == total_text(self@, times@),
    {
        let column = Column::from(self, times).render();
        if 4 < self.week_deltas.len() {
            let mut text = String::from_str("\n      . . .   Previous weeks truncated\n\n");
            text.append(column.as_str());
            text
        } else {
            column
        }
    }
}

/// How a period is written: "Mm", "Hh" or "Hh Mm".
pub open spec fn period_text(period: Period) -> Seq<char> {
    match period {
        Period::Minutes(minutes) => signed_decimal(minutes.0.0 as int) + "m"@,
        Period::HoursMinutes(HoursMinutes(hours, None)) => signed_decimal(hours.0.0 as int) + "h"@,
        Period::HoursMinutes(HoursMinutes(hours, Some(minutes))) => signed_decimal(
            hours.0.0 as int,
        ) + "h "@ + signed_decimal(minutes.0.0 as int) + "m"@,
    }
}

/// How the end of a range is written: "NOW", or the time as "HH:MM".
pub open spec fn range_end_text(end: TimeRangeEnd) -> Seq<char> {
    match end {
        TimeRangeEnd::Now(_) => "NOW"@,
        TimeRangeEnd::Time(time) => hours_and_minutes(time.0.seconds()),
    }
}

/// How a range is written: "HH:MM - HH:MM", or "HH:MM - NOW".
pub open spec fn range_text(range: TimeRange) -> Seq<char> {
    hours_and_minutes(range.0.0.seconds()) + " - "@ + range_end_text(range.1)
}

/// How a period or a range is written.
pub open spec fn time_period_text(period: TimePeriod) -> Seq<char> {
    match period {
        TimePeriod::Period(period) => period_text(period),
        TimePeriod::TimeRange(range) => range_text(range),
    }
}

impl Period {
    /// "Mm", "Hh" or "Hh Mm".
    pub fn render(&self) -> (text: String)
        ensures
            text@ == period_text(*self),
    {
        match self {
            Period::Minutes(minutes) => {
                let mut text = signed_decimal_text(**minutes);
                text.append("m");
                text
            },
            Period::HoursMinutes(HoursMinutes(hours, None)) => {
                let mut text = signed_decimal_text(**hours);
                text.append("h");
                text
            },
            Period::HoursMinutes(HoursMinutes(hours, Some(minutes))) => {
                let mut text = signed_decimal_text(**hours);
                text.append("h ");
                text.append(signed_decimal_text(**minutes).as_str());
                text.append("m");
                text
            },
        }
    }
}

impl Time {
    /// "HH:MM".
    pub fn render(&self) -> (text: String)
        ensures
            text@ == hours_and_minutes(self.0.seconds()),
    {
        self.0.render()
    }
}

impl TimeRangeEnd {
    /// "NOW", or the time as "HH:MM".
    pub fn render(&self) -> (text: String)
        ensures
            text@ == range_end_text(*self),
    {
        match self {
            TimeRangeEnd::Now(_) => String::from_str("NOW"),
            TimeRangeEnd::Time(time) => time.render(),
        }
    }
}

impl TimeRange {
    /// "HH:MM - HH:MM", or "HH:MM - NOW".
    pub fn render(&self) -> (text: String)
        ensures
            text@ == range_text(*self),
    {
        let mut text = self.0.render();
        text.append(" - ");
        text.append(self.1.render().as_str());
        text
    }
}

impl TimePeriod {
    /// The period or the range, as it is written.
    pub fn render(&self) -> (text: String)
        ensures
            text@ == time_period_text(*self),
    {
        match self {
            TimePeriod::Period(period) => period.render(),
            TimePeriod::TimeRange(range) => range.render(),
        }
    }
}

impl WorkingDayLog {
    /// "    WORKING DAY " and the period or the range.
    pub fn render(&self) -> (text: String)
        ensures
            text@ == "    WORKING DAY "@ + time_period_text(self.0),
    {
        let mut text = String::from_str("    WORKING DAY ");
        text.append(self.0.render().as_str());
        text
    }
}

} // verus!
