use timesheets::clock::ClockTime;
use timesheets::delta::Delta;
use timesheets::eval::{eval_week, evaluate_timesheets};
use timesheets::render::{
    get_deadline_block, get_deadline_offsets, get_deadline_segment, get_lunch_if_not_taken,
    time_delta_to_string, DeadlineTimes,
};
use timesheets::term_render::{Block, Cell, Column};
use timesheets::timesheet::{
    BreakLog, Date, Day, DayName, Days, Hours, HoursMinutes, LeaveLog, Log, LogEvent, LunchLog,
    Minutes, Now, Number, Period, Time, TimePeriod, TimeRange, TimeRangeEnd, Week, Weeks, WorkLog,
    WorkingDayLog,
};

const MINUTE: i128 = 60_000_000_000;
const HOUR: i128 = 60 * MINUTE;

fn clock(h: u32, m: u32) -> ClockTime {
    ClockTime::new(h * 3600 + m * 60, 0).unwrap()
}

fn mins(m: i64) -> TimePeriod {
    TimePeriod::Period(Period::Minutes(Minutes(Number(m))))
}

fn hm(h: i64, m: Option<i64>) -> TimePeriod {
    TimePeriod::Period(Period::HoursMinutes(HoursMinutes(
        Hours(Number(h)),
        m.map(|m| Minutes(Number(m))),
    )))
}

fn range(start: ClockTime, end: Option<ClockTime>) -> TimePeriod {
    TimePeriod::TimeRange(TimeRange(
        Time(start),
        match end {
            Some(end) => TimeRangeEnd::Time(Time(end)),
            None => TimeRangeEnd::Now(Now),
        },
    ))
}

fn work(p: TimePeriod) -> Log {
    Log(LogEvent::Work(WorkLog(p)))
}

fn lunch(p: TimePeriod) -> Log {
    Log(LogEvent::Lunch(LunchLog(p)))
}

fn day(name: &str, logs: Vec<Log>) -> Day {
    Day(DayName(name.to_string()), logs)
}

fn week(date: &str, days: Vec<Day>) -> Week {
    Week(Date(date.to_string()), Days(days))
}

fn delta(nanos: i128) -> Delta {
    Delta::from_nanos(nanos).unwrap()
}

fn times() -> DeadlineTimes {
    DeadlineTimes {
        finish: "17:00".to_string(),
        finish_after_lunch: "17:30".to_string(),
        retain: "16:45".to_string(),
        retain_after_lunch: "17:15".to_string(),
    }
}

fn cells(block: &Block) -> Vec<Vec<(String, String)>> {
    block
        .0
        .iter()
        .map(|s| s.0.iter().map(|c: &Cell| (c.figure.clone(), c.comment.clone())).collect())
        .collect()
}

#[test]
fn periods_evaluate_to_their_length() {
    let now = clock(12, 0);
    assert_eq!(mins(45).evaluate(now).unwrap().num_nanoseconds(), 45 * MINUTE);
    assert_eq!(hm(2, None).evaluate(now).unwrap().num_nanoseconds(), 2 * HOUR);
    assert_eq!(hm(2, Some(15)).evaluate(now).unwrap().num_nanoseconds(), 2 * HOUR + 15 * MINUTE);
    assert_eq!(mins(-5).evaluate(now).unwrap().num_nanoseconds(), -5 * MINUTE);
}

#[test]
fn periods_that_are_too_long_evaluate_to_nothing() {
    let now = clock(12, 0);
    assert!(hm(i64::MAX, None).evaluate(now).is_none());
    assert!(mins(i64::MIN).evaluate(now).is_none());
    // The largest number of hours that can be held, and the next.
    assert!(hm(2_562_047_788_015, None).evaluate(now).is_some());
    assert!(hm(2_562_047_788_016, None).evaluate(now).is_none());
    // Each part can be held, the sum cannot.
    assert!(hm(2_562_047_788_015, Some(59)).evaluate(now).is_none());
}

#[test]
fn ranges_evaluate_from_start_to_end() {
    let now = clock(12, 0);
    assert_eq!(
        range(clock(9, 0), Some(clock(10, 15))).evaluate(now).unwrap().num_nanoseconds(),
        75 * MINUTE
    );
    assert_eq!(range(clock(9, 0), None).evaluate(now).unwrap().num_nanoseconds(), 3 * HOUR);
    assert_eq!(
        range(clock(10, 0), Some(clock(9, 0))).evaluate(now).unwrap().num_nanoseconds(),
        -HOUR
    );
}

#[test]
fn ranges_count_a_leap_second_between_their_ends() {
    let leap = ClockTime::new(59, 1_500_000_000).unwrap();
    let later = ClockTime::new(120, 0).unwrap();
    let earlier = ClockTime::new(0, 0).unwrap();
    assert_eq!(later.nanos_since(&leap), 60_500_000_000);
    assert_eq!(leap.nanos_since(&earlier), 60_500_000_000);
    assert_eq!(earlier.nanos_since(&leap), -60_500_000_000);
    assert_eq!(leap.nanos_since(&later), -60_500_000_000);
}

#[test]
fn breaks_and_lunches_count_against_the_day() {
    let now = clock(12, 0);
    assert_eq!(work(mins(10)).evaluate(now).unwrap().num_nanoseconds(), 10 * MINUTE);
    assert_eq!(lunch(mins(10)).evaluate(now).unwrap().num_nanoseconds(), -10 * MINUTE);
    let brk = Log(LogEvent::Break(BreakLog(mins(10))));
    assert_eq!(brk.evaluate(now).unwrap().num_nanoseconds(), -10 * MINUTE);
    let leave = Log(LogEvent::Leave(LeaveLog(mins(10))));
    assert_eq!(leave.evaluate(now).unwrap().num_nanoseconds(), 10 * MINUTE);
    let whole = Log(LogEvent::WorkingDay(WorkingDayLog(mins(10))));
    assert_eq!(whole.evaluate(now).unwrap().num_nanoseconds(), 10 * MINUTE);
}

#[test]
fn a_day_is_its_lines_less_eight_hours() {
    let d = day(
        "Monday",
        vec![work(hm(7, Some(30))), lunch(mins(30)), work(range(clock(9, 0), Some(clock(10, 15))))],
    );
    let evaluated = d.evaluate(clock(12, 0)).unwrap();
    assert_eq!(evaluated.weekday, "Monday");
    assert_eq!(evaluated.delta.num_nanoseconds(), 15 * MINUTE);
    assert!(evaluated.had_lunch);
}

#[test]
fn an_empty_day_is_eight_hours_short() {
    let evaluated = day("Friday", vec![]).evaluate(clock(12, 0)).unwrap();
    assert_eq!(evaluated.delta.num_nanoseconds(), -8 * HOUR);
    assert!(!evaluated.had_lunch);
}

#[test]
fn a_week_sums_its_days() {
    let w = week(
        "2024-01-01",
        vec![day("Mon", vec![work(hm(9, None))]), day("Tue", vec![work(hm(7, None)), lunch(mins(15))])],
    );
    let evaluated = eval_week(w, clock(12, 0)).unwrap();
    assert_eq!(evaluated.starting_date, "2024-01-01");
    assert_eq!(evaluated.day_deltas.len(), 2);
    assert_eq!(evaluated.day_deltas[0].delta.num_nanoseconds(), HOUR);
    assert_eq!(evaluated.day_deltas[1].delta.num_nanoseconds(), -HOUR - 15 * MINUTE);
    assert_eq!(evaluated.week_delta.num_nanoseconds(), -15 * MINUTE);
}

#[test]
fn the_sheet_sums_its_weeks_and_sets_today_apart() {
    let weeks = Weeks(vec![
        week("w1", vec![day("Mon", vec![work(hm(10, None))])]),
        week(
            "w2",
            vec![day("Mon", vec![work(hm(8, Some(30)))]), day("Tue", vec![work(range(clock(8, 0), None))])],
        ),
    ]);
    let total = evaluate_timesheets(weeks, clock(11, 0)).unwrap();
    assert_eq!(total.week_deltas.len(), 2);
    assert_eq!(total.week_deltas[0].week_delta.num_nanoseconds(), 2 * HOUR);
    assert_eq!(total.week_deltas[1].week_delta.num_nanoseconds(), 30 * MINUTE - 5 * HOUR);
    assert_eq!(total.total_delta.num_nanoseconds(), 2 * HOUR + 30 * MINUTE - 5 * HOUR);
    assert_eq!(total.total_delta_excluding_today.num_nanoseconds(), 2 * HOUR + 30 * MINUTE);
}

#[test]
fn a_sheet_without_weeks_is_even() {
    let total = evaluate_timesheets(Weeks(vec![]), clock(11, 0)).unwrap();
    assert_eq!(total.total_delta.num_nanoseconds(), 0);
    assert_eq!(total.total_delta_excluding_today.num_nanoseconds(), 0);
    assert!(total.week_deltas.is_empty());
}

#[test]
fn today_is_sought_in_the_last_week_only() {
    let weeks = Weeks(vec![week("w1", vec![day("Mon", vec![work(hm(10, None))])]), week("w2", vec![])]);
    let total = evaluate_timesheets(weeks, clock(11, 0)).unwrap();
    assert_eq!(total.total_delta.num_nanoseconds(), 2 * HOUR);
    assert_eq!(total.total_delta_excluding_today.num_nanoseconds(), 2 * HOUR);
}

#[test]
fn a_sheet_with_a_length_that_cannot_be_held_evaluates_to_nothing() {
    let weeks = Weeks(vec![week("w1", vec![day("Mon", vec![work(hm(i64::MAX, None))])])]);
    assert!(evaluate_timesheets(weeks, clock(11, 0)).is_none());
    let big = || work(hm(2_562_047_788_015, None));
    let weeks = Weeks(vec![week("w1", vec![day("Mon", vec![big(), big()])])]);
    assert!(evaluate_timesheets(weeks, clock(11, 0)).is_none());
}

#[test]
fn deltas_keep_within_their_range() {
    let max: i128 = 9_223_372_036_854_775_807_000_000;
    assert!(Delta::from_nanos(max).is_some());
    assert!(Delta::from_nanos(max + 1).is_none());
    assert!(Delta::from_nanos(-max).is_some());
    assert!(Delta::from_nanos(-max - 1).is_none());
    assert!(delta(max).checked_add(&delta(1)).is_none());
    assert!(delta(-max).checked_sub(&delta(1)).is_none());
    assert_eq!(delta(max).checked_sub(&delta(max)).unwrap().num_nanoseconds(), 0);
    assert_eq!(delta(max).neg().num_nanoseconds(), -max);
    assert_eq!(Delta::zero().num_nanoseconds(), 0);
    assert_eq!(Delta::hours(-3).unwrap().num_nanoseconds(), -3 * HOUR);
    assert_eq!(Delta::minutes(90).unwrap().num_nanoseconds(), 90 * MINUTE);
    assert_eq!(Delta::from_small_nanos(-7).num_nanoseconds(), -7);
}

#[test]
fn whole_minutes_and_seconds_round_towards_zero() {
    assert_eq!(delta(119_999_999_999).num_minutes(), 1);
    assert_eq!(delta(-119_999_999_999).num_minutes(), -1);
    assert_eq!(delta(-59_999_999_999).num_minutes(), 0);
    assert_eq!(delta(1_999_999_999).num_seconds(), 1);
    assert_eq!(delta(-1_999_999_999).num_seconds(), -1);
    assert_eq!(delta(-999_999_999).num_seconds(), 0);
}

#[test]
fn deltas_are_shown_in_minutes_or_in_hours_and_minutes() {
    for (nanos, text) in [
        (0, "+0m  "),
        (5 * MINUTE, "+5m  "),
        (15 * MINUTE, "+15m "),
        (-40 * MINUTE, "-40m "),
        (59 * MINUTE + 59_000_000_000, "+59m "),
        (HOUR, "+1:00"),
        (90 * MINUTE, "+1:30"),
        (-6 * HOUR, "-6:00"),
        (61 * MINUTE, "+1:01"),
        (-HOUR - 5 * MINUTE, "-1:05"),
        (123 * HOUR + 45 * MINUTE, "+123:45"),
        (-59_000_000_000, "+0m  "),
    ] {
        assert_eq!(time_delta_to_string(&delta(nanos)), text, "{}", nanos);
    }
}

#[test]
fn a_day_becomes_a_cell_and_a_week_a_block() {
    let w = week(
        "2024-01-01",
        vec![day("Mon", vec![work(hm(9, None))]), day("Tue", vec![work(hm(7, None)), lunch(mins(15))])],
    );
    let evaluated = eval_week(w, clock(12, 0)).unwrap();
    let cell = Cell::from(&evaluated.day_deltas[0]);
    assert_eq!((cell.figure.as_str(), cell.comment.as_str()), ("+1:00", "Mon"));
    let block = Block::from(&evaluated);
    assert_eq!(
        cells(&block),
        vec![
            vec![("-15m ".to_string(), "Week starting 2024-01-01".to_string())],
            vec![("+1:00".to_string(), "Mon".to_string()), ("-1:15".to_string(), "Tue".to_string())],
        ]
    );
}

#[test]
fn lunch_is_due_where_the_last_day_has_none() {
    let without = evaluate_timesheets(
        Weeks(vec![week("w", vec![day("Mon", vec![lunch(mins(30))]), day("Tue", vec![work(mins(1))])])]),
        clock(11, 0),
    )
    .unwrap();
    assert_eq!(
        get_lunch_if_not_taken(&without.week_deltas).unwrap().num_nanoseconds(),
        30 * MINUTE
    );
    let with = evaluate_timesheets(
        Weeks(vec![week("w", vec![day("Mon", vec![]), day("Tue", vec![lunch(mins(30))])])]),
        clock(11, 0),
    )
    .unwrap();
    assert!(get_lunch_if_not_taken(&with.week_deltas).is_none());
    assert!(get_lunch_if_not_taken(&vec![]).is_none());
    let no_day = evaluate_timesheets(Weeks(vec![week("w", vec![])]), clock(11, 0)).unwrap();
    assert!(get_lunch_if_not_taken(&no_day.week_deltas).is_none());
}

#[test]
fn deadline_segments() {
    let segment = get_deadline_segment("17:00", None, "RETAIN CREDIT");
    assert_eq!(segment.0.len(), 1);
    assert_eq!((segment.0[0].figure.as_str(), segment.0[0].comment.as_str()), ("17:00", "RETAIN CREDIT"));
    let segment = get_deadline_segment("17:00", Some("17:30"), "RETAIN CREDIT");
    assert_eq!(segment.0.len(), 2);
    assert_eq!(
        (segment.0[1].figure.as_str(), segment.0[1].comment.as_str()),
        ("17:30", "RETAIN CREDIT + LUNCH")
    );
}

#[test]
fn deadline_block_shows_lunch_where_it_is_due() {
    let total = evaluate_timesheets(
        Weeks(vec![week("w", vec![day("Mon", vec![work(hm(7, None))])])]),
        clock(11, 0),
    )
    .unwrap();
    assert_eq!(
        cells(&get_deadline_block(&total, &times())),
        vec![
            vec![
                ("17:00".to_string(), "EARLIEST FINISH TIME".to_string()),
                ("17:30".to_string(), "EARLIEST FINISH TIME + LUNCH".to_string()),
            ],
            vec![
                ("16:45".to_string(), "RETAIN CREDIT".to_string()),
                ("17:15".to_string(), "RETAIN CREDIT + LUNCH".to_string()),
            ],
        ]
    );
    let total = evaluate_timesheets(
        Weeks(vec![week("w", vec![day("Mon", vec![lunch(mins(30))])])]),
        clock(11, 0),
    )
    .unwrap();
    assert_eq!(
        cells(&get_deadline_block(&total, &times())),
        vec![
            vec![("17:00".to_string(), "EARLIEST FINISH TIME".to_string())],
            vec![("16:45".to_string(), "RETAIN CREDIT".to_string())],
        ]
    );
}

#[test]
fn the_column_shows_the_last_four_weeks_the_totals_and_the_deadlines() {
    let weeks = Weeks(
        (1..=6)
            .map(|n| week(&format!("w{}", n), vec![day("Mon", vec![work(hm(8, Some(n)))])]))
            .collect(),
    );
    let total = evaluate_timesheets(weeks, clock(11, 0)).unwrap();
    let column = Column::from(&total, &times());
    assert_eq!(column.0.len(), 6);
    let headings: Vec<String> = column.0[..4].iter().map(|b| b.0[0].0[0].comment.clone()).collect();
    assert_eq!(
        headings,
        vec!["Week starting w3", "Week starting w4", "Week starting w5", "Week starting w6"]
    );
    assert_eq!(
        cells(&column.0[4]),
        vec![
            vec![("+15m ".to_string(), "TOTAL CREDIT BEFORE TODAY".to_string())],
            vec![("+21m ".to_string(), "TOTAL CREDIT NOW".to_string())],
        ]
    );
    assert_eq!(column.0[5].0.len(), 2);
    let text = total.render(&times());
    assert!(text.starts_with("\n      . . .   Previous weeks truncated\n\n    ┌───────┐\n"));
    assert!(text.ends_with(&column.render()));
    assert_eq!(text.len(), "\n      . . .   Previous weeks truncated\n\n".len() + column.render().len());
}

#[test]
fn a_short_sheet_is_shown_whole() {
    let total = evaluate_timesheets(
        Weeks(vec![week("w1", vec![day("Mon", vec![work(hm(7, None)), lunch(mins(30))])])]),
        clock(11, 0),
    )
    .unwrap();
    let expected = "    ┌───────┐\n\
                    \x20   │ -1:30 │ Week starting w1\n\
                    \x20   ├───────┤\n\
                    \x20   │ -1:30 │ Mon\n\
                    \x20   └───────┘\n\
                    \x20   ┌───────┐\n\
                    \x20   │ +0m   │ TOTAL DEFICIT BEFORE TODAY\n\
                    \x20   ├───────┤\n\
                    \x20   │ -1:30 │ TOTAL DEFICIT NOW\n\
                    \x20   └───────┘\n\
                    \x20   ┌───────┐\n\
                    \x20   │ 17:00 │ EARLIEST FINISH TIME\n\
                    \x20   ├───────┤\n\
                    \x20   │ 16:45 │ RETAIN CREDIT\n\
                    \x20   └───────┘\n";
    assert_eq!(total.render(&times()), expected);
}

#[test]
fn credit_needs_a_whole_second() {
    let total = evaluate_timesheets(
        Weeks(vec![week(
            "w1",
            vec![day(
                "Mon",
                vec![work(range(
                    ClockTime::new(0, 0).unwrap(),
                    Some(ClockTime::new(8 * 3600, 999_999_999).unwrap()),
                ))],
            )],
        )]),
        clock(11, 0),
    )
    .unwrap();
    assert_eq!(total.total_delta.num_nanoseconds(), 999_999_999);
    let column = Column::from(&total, &times());
    assert_eq!(column.0[1].0[1].0[0].comment, "TOTAL DEFICIT NOW");
}

#[test]
fn periods_and_ranges_are_written_out() {
    assert_eq!(Period::Minutes(Minutes(Number(45))).render(), "45m");
    assert_eq!(Period::HoursMinutes(HoursMinutes(Hours(Number(2)), None)).render(), "2h");
    assert_eq!(
        Period::HoursMinutes(HoursMinutes(Hours(Number(2)), Some(Minutes(Number(5))))).render(),
        "2h 5m"
    );
    assert_eq!(Period::Minutes(Minutes(Number(-3))).render(), "-3m");
    assert_eq!(Time(clock(7, 5)).render(), "07:05");
    assert_eq!(Time(ClockTime::new(86_399, 1_500_000_000).unwrap()).render(), "23:59");
    assert_eq!(TimeRangeEnd::Now(Now).render(), "NOW");
    assert_eq!(TimeRangeEnd::Time(Time(clock(18, 30))).render(), "18:30");
    assert_eq!(range(clock(9, 0), None).render(), "09:00 - NOW");
    assert_eq!(range(clock(9, 0), Some(clock(17, 45))).render(), "09:00 - 17:45");
    assert_eq!(hm(1, Some(2)).render(), "1h 2m");
    assert_eq!(WorkingDayLog(mins(480)).render(), "    WORKING DAY 480m");
}

#[test]
fn clock_times_are_read_as_chrono_reads_them() {
    let t = ClockTime::parse("23:56:04").unwrap();
    assert_eq!((t.num_seconds_from_midnight(), t.nanosecond()), (23 * 3600 + 56 * 60 + 4, 0));
    let t = ClockTime::parse("23:59:60.5").unwrap();
    assert_eq!((t.num_seconds_from_midnight(), t.nanosecond()), (86_399, 1_500_000_000));
    assert!(ClockTime::parse("foo").is_err());
    assert_eq!(ClockTime::parse("24:00").unwrap_err(), "input is out of range");
}

#[test]
fn deadlines_fall_at_the_clock_less_the_deltas() {
    let total = evaluate_timesheets(
        Weeks(vec![
            week("w1", vec![day("Mon", vec![work(hm(10, None))])]),
            week("w2", vec![day("Mon", vec![work(hm(8, Some(30)))]), day("Tue", vec![work(hm(7, None))])]),
        ]),
        clock(11, 0),
    )
    .unwrap();
    let offsets = get_deadline_offsets(&total);
    assert_eq!(offsets.finish, HOUR + 30 * MINUTE);
    assert_eq!(offsets.finish_after_lunch, HOUR);
    assert_eq!(offsets.retain, -HOUR);
    assert_eq!(offsets.retain_after_lunch, -HOUR - 30 * MINUTE);
}

#[test]
fn deadlines_of_a_sheet_without_days_fall_at_the_clock() {
    let total = evaluate_timesheets(Weeks(vec![week("w1", vec![])]), clock(11, 0)).unwrap();
    let offsets = get_deadline_offsets(&total);
    assert_eq!((offsets.finish, offsets.retain), (0, 0));
    assert_eq!((offsets.finish_after_lunch, offsets.retain_after_lunch), (-30 * MINUTE, -30 * MINUTE));
}
