//! The timesheet model: what a timesheet holds, and how each part of it is
//! packed from the concrete tree of the timesheet grammar.

use vstd::prelude::*;
use crate::clock::{clock_reading, ClockTime};
use crate::errors::{ErrorView, PackingError, PackingErrorVariant, PackingResult, VariantView};
use crate::grammar::Rule;
use crate::pack_trees::{
    beneath, choice, each_packed, first_and_rest_packed, get_only_tree_child,
    get_tree_src_string, mapped, maybe_two_packed, one_packed, only_tree, packed_view,
    select_alternative, tree_src_string, two_packed, unpack_only_tree,
    unpack_tree_pack_1_child, unpack_tree_pack_2_children, unpack_tree_pack_each_child,
    unpack_tree_pack_first_and_rest, unpack_tree_pack_maybe_2_children, values_view, HasRule,
    Model, TokenPacker, TokenRepacker,
};
use crate::text::{number_error_text, parse_number, parsed_number};
use crate::tree::{trees_view, RawNode, SyntaxTree, Tree};

verus! {

/// The date on which a week starts, as the timesheet writes it.
#[derive(Debug)]
pub struct Date(pub String);

/// The name of a day, as the timesheet writes it.
#[derive(Debug)]
pub struct DayName(pub String);

/// The text of a number, before it is read.
#[derive(Debug)]
pub struct NumberText(pub String);

/// The text of a time of day, before it is read.
#[derive(Debug)]
pub struct TimeText(pub String);

/// A time of day.
#[derive(Debug, Clone, Copy)]
pub struct Time(pub ClockTime);

/// A whole number.
#[derive(Debug, Clone, Copy)]
pub struct Number(pub i64);

/// A number of minutes.
#[derive(Debug, Clone, Copy)]
pub struct Minutes(pub Number);

/// A number of hours.
#[derive(Debug, Clone, Copy)]
pub struct Hours(pub Number);

/// Hours, and maybe minutes on top.
#[derive(Debug, Clone, Copy)]
pub struct HoursMinutes(pub Hours, pub Option<Minutes>);

/// A length of time, written in minutes or in hours and minutes.
#[derive(Debug, Clone, Copy)]
pub enum Period {
    Minutes(Minutes),
    HoursMinutes(HoursMinutes),
}

/// The moment at which the timesheet is evaluated.
#[derive(Debug, Clone, Copy)]
pub struct Now;

/// The end of a range of time: a time of day, or the present moment.
#[derive(Debug, Clone, Copy)]
pub enum TimeRangeEnd {
    Now(Now),
    Time(Time),
}

/// A range of time, from a time of day to its end.
#[derive(Debug, Clone, Copy)]
pub struct TimeRange(pub Time, pub TimeRangeEnd);

/// How long something took: a length of time or a range of time.
#[derive(Debug, Clone, Copy)]
pub enum TimePeriod {
    Period(Period),
    TimeRange(TimeRange),
}

/// Time worked.
#[derive(Debug, Clone, Copy)]
pub struct WorkLog(pub TimePeriod);

/// A working day, logged as a whole.
#[derive(Debug, Clone, Copy)]
pub struct WorkingDayLog(pub TimePeriod);

/// A lunch break.
#[derive(Debug, Clone, Copy)]
pub struct LunchLog(pub TimePeriod);

/// A break.
#[derive(Debug, Clone, Copy)]
pub struct BreakLog(pub TimePeriod);

/// Leave.
#[derive(Debug, Clone, Copy)]
pub struct LeaveLog(pub TimePeriod);

/// What a line of a day logs.
#[derive(Debug, Clone, Copy)]
pub enum LogEvent {
    Work(WorkLog),
    WorkingDay(WorkingDayLog),
    Lunch(LunchLog),
    Break(BreakLog),
    Leave(LeaveLog),
}

/// A line of a day.
#[derive(Debug, Clone, Copy)]
pub struct Log(pub LogEvent);

/// A day: its name and its lines.
#[derive(Debug)]
pub struct Day(pub DayName, pub Vec<Log>);

/// The days of a week.
#[derive(Debug)]
pub struct Days(pub Vec<Day>);

/// A week: the date on which it starts, and its days.
#[derive(Debug)]
pub struct Week(pub Date, pub Days);

/// The weeks of a timesheet.
#[derive(Debug)]
pub struct Weeks(pub Vec<Week>);

/// The end of the input.
#[derive(Debug, Clone, Copy)]
pub struct EOI;

/// A whole timesheet: its weeks, and the end of the input behind them.
#[derive(Debug)]
pub struct Body(pub Weeks, pub EOI);

/// The mathematical content of a [`Day`].
pub struct DayView {
    pub name: Seq<char>,
    pub logs: Seq<Log>,
}

/// The mathematical content of a [`Week`].
pub struct WeekView {
    pub date: Seq<char>,
    pub days: Seq<DayView>,
}

impl Model for Date {
    type V = Seq<char>;

    open spec fn model(&self) -> Seq<char> {
        self.0@
    }
}

impl Model for DayName {
    type V = Seq<char>;

    open spec fn model(&self) -> Seq<char> {
        self.0@
    }
}

impl Model for NumberText {
    type V = Seq<char>;

    open spec fn model(&self) -> Seq<char> {
        self.0@
    }
}

impl Model for TimeText {
    type V = Seq<char>;

    open spec fn model(&self) -> Seq<char> {
        self.0@
    }
}

impl Model for Time {
    type V = Time;

    open spec fn model(&self) -> Time {
        *self
    }
}

impl Model for Number {
    type V = Number;

    open spec fn model(&self) -> Number {
        *self
    }
}

impl Model for Minutes {
    type V = Minutes;

    open spec fn model(&self) -> Minutes {
        *self
    }
}

impl Model for Hours {
    type V = Hours;

    open spec fn model(&self) -> Hours {
        *self
    }
}

impl Model for HoursMinutes {
    type V = HoursMinutes;

    open spec fn model(&self) -> HoursMinutes {
        *self
    }
}

impl Model for Period {
    type V = Period;

    open spec fn model(&self) -> Period {
        *self
    }
}

impl Model for Now {
    type V = Now;

    open spec fn model(&self) -> Now {
        *self
    }
}

impl Model for TimeRangeEnd {
    type V = TimeRangeEnd;

    open spec fn model(&self) -> TimeRangeEnd {
        *self
    }
}

impl Model for TimeRange {
    type V = TimeRange;

    open spec fn model(&self) -> TimeRange {
        *self
    }
}

impl Model for TimePeriod {
    type V = TimePeriod;

    open spec fn model(&self) -> TimePeriod {
        *self
    }
}

impl Model for WorkLog {
    type V = WorkLog;

    open spec fn model(&self) -> WorkLog {
        *self
    }
}

impl Model for WorkingDayLog {
    type V = WorkingDayLog;

    open spec fn model(&self) -> WorkingDayLog {
        *self
    }
}

impl Model for LunchLog {
    type V = LunchLog;

    open spec fn model(&self) -> LunchLog {
        *self
    }
}

impl Model for BreakLog {
    type V = BreakLog;

    open spec fn model(&self) -> BreakLog {
        *self
    }
}

impl Model for LeaveLog {
    type V = LeaveLog;

    open spec fn model(&self) -> LeaveLog {
        *self
    }
}

impl Model for LogEvent {
    type V = LogEvent;

    open spec fn model(&self) -> LogEvent {
        *self
    }
}

impl Model for Log {
    type V = Log;

    open spec fn model(&self) -> Log {
        *self
    }
}

impl Model for Day {
    type V = DayView;

    open spec fn model(&self) -> DayView {
        DayView { name: self.0.model(), logs: values_view(self.1@) }
    }
}

impl Model for Days {
    type V = Seq<DayView>;

    open spec fn model(&self) -> Seq<DayView> {
        values_view(self.0@)
    }
}

impl Model for Week {
    type V = WeekView;

    open spec fn model(&self) -> WeekView {
        WeekView { date: self.0.model(), days: self.1.model() }
    }
}

impl Model for Weeks {
    type V = Seq<WeekView>;

    open spec fn model(&self) -> Seq<WeekView> {
        values_view(self.0@)
    }
}

impl Model for EOI {
    type V = EOI;

    open spec fn model(&self) -> EOI {
        *self
    }
}

impl Model for Body {
    type V = (Seq<WeekView>, EOI);

    open spec fn model(&self) -> (Seq<WeekView>, EOI) {
        (self.0.model(), self.1.model())
    }
}

impl HasRule for Date {
    type Rule = Rule;

    open spec fn rule() -> Rule {
        Rule::Date
    }

    fn get_rule() -> Rule {
        Rule::Date
    }
}

impl TokenPacker for Date {
    /// The trimmed text of a `DATE` leaf.
    open spec fn packed(tree: Tree<Rule>) -> Result<Seq<char>, ErrorView<Rule>> {
        tree_src_string(tree, Rule::Date)
    }

    fn pack(tree: SyntaxTree<Rule>) -> (r: Result<Date, PackingError<Rule>>) {
        match get_tree_src_string(tree, Rule::Date) {
            Ok(text) => Ok(Date(text)),
            Err(e) => Err(e),
        }
    }
}

impl HasRule for DayName {
    type Rule = Rule;

    open spec fn rule() -> Rule {
        Rule::DayName
    }

    fn get_rule() -> Rule {
        Rule::DayName
    }
}

impl TokenPacker for DayName {
    /// The trimmed text of a `DAY_NAME` leaf.
    open spec fn packed(tree: Tree<Rule>) -> Result<Seq<char>, ErrorView<Rule>> {
        tree_src_string(tree, Rule::DayName)
    }

    fn pack(tree: SyntaxTree<Rule>) -> (r: Result<DayName, PackingError<Rule>>) {
        match get_tree_src_string(tree, Rule::DayName) {
            Ok(text) => Ok(DayName(text)),
            Err(e) => Err(e),
        }
    }
}

impl HasRule for NumberText {
    type Rule = Rule;

    open spec fn rule() -> Rule {
        Rule::Numbers
    }

    fn get_rule() -> Rule {
        Rule::Numbers
    }
}

impl TokenPacker for NumberText {
    /// The trimmed text of a `numbers` leaf.
    open spec fn packed(tree: Tree<Rule>) -> Result<Seq<char>, ErrorView<Rule>> {
        tree_src_string(tree, Rule::Numbers)
    }

    fn pack(tree: SyntaxTree<Rule>) -> (r: Result<NumberText, PackingError<Rule>>) {
        match get_tree_src_string(tree, Rule::Numbers) {
            Ok(text) => Ok(NumberText(text)),
            Err(e) => Err(e),
        }
    }
}

impl HasRule for Number {
    type Rule = Rule;

    open spec fn rule() -> Rule {
        Rule::Numbers
    }

    fn get_rule() -> Rule {
        Rule::Numbers
    }
}

/// The failure of turning the text of a leaf into a value.
pub open spec fn leaf_transform_failed(message: Seq<char>) -> ErrorView<Rule> {
    ErrorView::fresh(VariantView::LeafTransformFailed { message })
}

impl TokenRepacker for Number {
    type Packer = NumberText;

    /// The number that the text writes in decimal, if it writes one that fits
    /// in 64 bits.
    open spec fn repacked(text: Seq<char>) -> Result<Number, ErrorView<Rule>> {
        match parsed_number(text) {
            Some(n) => Ok(Number(n)),
            None => Err(leaf_transform_failed(number_error_text(text))),
        }
    }

    fn repack(packer: NumberText) -> (r: Result<Number, PackingError<Rule>>) {
        match parse_number(packer.0.as_str()) {
            Ok(n) => Ok(Number(n)),
            Err(message) => Err(
                PackingError::new(PackingErrorVariant::LeafTransformFailed { message }),
            ),
        }
    }
}

impl HasRule for TimeText {
    type Rule = Rule;

    open spec fn rule() -> Rule {
        Rule::Time
    }

    fn get_rule() -> Rule {
        Rule::Time
    }
}

impl TokenPacker for TimeText {
    /// The trimmed text of a `TIME` leaf.
    open spec fn packed(tree: Tree<Rule>) -> Result<Seq<char>, ErrorView<Rule>> {
        tree_src_string(tree, Rule::Time)
    }

    fn pack(tree: SyntaxTree<Rule>) -> (r: Result<TimeText, PackingError<Rule>>) {
        match get_tree_src_string(tree, Rule::Time) {
            Ok(text) => Ok(TimeText(text)),
            Err(e) => Err(e),
        }
    }
}

impl HasRule for Time {
    type Rule = Rule;

    open spec fn rule() -> Rule {
        Rule::Time
    }

    fn get_rule() -> Rule {
        Rule::Time
    }
}

impl TokenRepacker for Time {
    type Packer = TimeText;

    /// The time of day that the text reads as.
    open spec fn repacked(text: Seq<char>) -> Result<Time, ErrorView<Rule>> {
        match clock_reading(text) {
            Ok(parts) => Ok(Time(ClockTime::of(parts.0, parts.1))),
            Err(message) => Err(leaf_transform_failed(message)),
        }
    }

    fn repack(packer: TimeText) -> (r: Result<Time, PackingError<Rule>>) {
        match ClockTime::parse(packer.0.as_str()) {
            Ok(time) => {
                proof {
                    time.lemma_parts();
                }
                Ok(Time(time))
            },
            Err(message) => Err(
                PackingError::new(PackingErrorVariant::LeafTransformFailed { message }),
            ),
        }
    }
}

impl HasRule for Minutes {
    type Rule = Rule;

    open spec fn rule() -> Rule {
        Rule::PeriodMinutes
    }

    fn get_rule() -> Rule {
        Rule::PeriodMinutes
    }
}

impl TokenPacker for Minutes {
    /// The number that is the only child of a `PERIOD_MINUTES` node.
    open spec fn packed(tree: Tree<Rule>) -> Result<Minutes, ErrorView<Rule>> {
        mapped(
            beneath(tree, Rule::PeriodMinutes, one_packed::<Number>(tree.children)),
            |n: Number| Minutes(n),
        )
    }

    fn pack(tree: SyntaxTree<Rule>) -> (r: Result<Minutes, PackingError<Rule>>) {
        match unpack_tree_pack_1_child::<Number>(tree, Rule::PeriodMinutes) {
            Ok(n) => Ok(Minutes(n)),
            Err(e) => Err(e),
        }
    }
}

impl HasRule for Hours {
    type Rule = Rule;

    open spec fn rule() -> Rule {
        Rule::PeriodHours
    }

    fn get_rule() -> Rule {
        Rule::PeriodHours
    }
}

impl TokenPacker for Hours {
    /// The number that is the only child of a `PERIOD_HOURS` node.
    open spec fn packed(tree: Tree<Rule>) -> Result<Hours, ErrorView<Rule>> {
        mapped(
            beneath(tree, Rule::PeriodHours, one_packed::<Number>(tree.children)),
            |n: Number| Hours(n),
        )
    }

    fn pack(tree: SyntaxTree<Rule>) -> (r: Result<Hours, PackingError<Rule>>) {
        match unpack_tree_pack_1_child::<Number>(tree, Rule::PeriodHours) {
            Ok(n) => Ok(Hours(n)),
            Err(e) => Err(e),
        }
    }
}

impl HasRule for HoursMinutes {
    type Rule = Rule;

    open spec fn rule() -> Rule {
        Rule::PeriodHoursMinutes
    }

    fn get_rule() -> Rule {
        Rule::PeriodHoursMinutes
    }
}

impl TokenPacker for HoursMinutes {
    /// The hours, and the minutes if there are any, beneath a
    /// `period_hours_minutes` node.
    open spec fn packed(tree: Tree<Rule>) -> Result<HoursMinutes, ErrorView<Rule>> {
        mapped(
            beneath(
                tree,
                Rule::PeriodHoursMinutes,
                maybe_two_packed::<Hours, Minutes, Rule>(tree.children),
            ),
            |pair: (Hours, Option<Minutes>)| HoursMinutes(pair.0, pair.1),
        )
    }

    fn pack(tree: SyntaxTree<Rule>) -> (r: Result<HoursMinutes, PackingError<Rule>>) {
        match unpack_tree_pack_maybe_2_children::<Hours, Minutes, Rule>(
            tree,
            Rule::PeriodHoursMinutes,
        ) {
            Ok(pair) => Ok(HoursMinutes(pair.0, pair.1)),
            Err(e) => Err(e),
        }
    }
}

impl HasRule for Period {
    type Rule = Rule;

    open spec fn rule() -> Rule {
        Rule::Period
    }

    fn get_rule() -> Rule {
        Rule::Period
    }
}

impl TokenPacker for Period {
    /// The only child of a `PERIOD` node, packed as minutes or else as hours
    /// and minutes, whichever its rule says.
    open spec fn packed(tree: Tree<Rule>) -> Result<Period, ErrorView<Rule>> {
        choice(
            tree,
            Rule::Period,
            seq![Rule::PeriodMinutes, Rule::PeriodHoursMinutes],
            |at: int, child: Tree<Rule>|
                if at == 0 {
                    mapped(Minutes::packed(child), |m: Minutes| Period::Minutes(m))
                } else {
                    mapped(HoursMinutes::packed(child), |hm: HoursMinutes| Period::HoursMinutes(hm))
                },
        )
    }

    fn pack(tree: SyntaxTree<Rule>) -> (r: Result<Period, PackingError<Rule>>) {
        match get_only_tree_child(tree, Rule::Period) {
            Err(e) => Err(e),
            Ok(child) => {
                let mut candidates: Vec<Rule> = Vec::new();
                candidates.push(Minutes::get_rule());
                candidates.push(HoursMinutes::get_rule());
                assert(candidates@ =~= seq![Rule::PeriodMinutes, Rule::PeriodHoursMinutes]);
                let picked = match select_alternative(child, candidates) {
                    Err(e) => Err(e),
                    Ok((at, child)) => if at == 0 {
                        match Minutes::pack(child) {
                            Ok(m) => Ok(Period::Minutes(m)),
                            Err(e) => Err(e),
                        }
                    } else {
                        match HoursMinutes::pack(child) {
                            Ok(hm) => Ok(Period::HoursMinutes(hm)),
                            Err(e) => Err(e),
                        }
                    },
                };
                picked.with_rule(Rule::Period)
            },
        }
    }
}

impl HasRule for Now {
    type Rule = Rule;

    open spec fn rule() -> Rule {
        Rule::Now
    }

    fn get_rule() -> Rule {
        Rule::Now
    }
}

impl TokenPacker for Now {
    /// A `NOW` leaf.
    open spec fn packed(tree: Tree<Rule>) -> Result<Now, ErrorView<Rule>> {
        mapped(tree_src_string(tree, Rule::Now), |text: Seq<char>| Now)
    }

    fn pack(tree: SyntaxTree<Rule>) -> (r: Result<Now, PackingError<Rule>>) {
        match get_tree_src_string(tree, Rule::Now) {
            Ok(_) => Ok(Now),
            Err(e) => Err(e),
        }
    }
}

impl HasRule for TimeRangeEnd {
    type Rule = Rule;

    open spec fn rule() -> Rule {
        Rule::TimeRangeEnd
    }

    fn get_rule() -> Rule {
        Rule::TimeRangeEnd
    }
}

impl TokenPacker for TimeRangeEnd {
    /// The only child of a `time_range_end` node, packed as the present
    /// moment or else as a time of day, whichever its rule says.
    open spec fn packed(tree: Tree<Rule>) -> Result<TimeRangeEnd, ErrorView<Rule>> {
        choice(
            tree,
            Rule::TimeRangeEnd,
            seq![Rule::Now, Rule::Time],
            |at: int, child: Tree<Rule>|
                if at == 0 {
                    mapped(Now::packed(child), |now: Now| TimeRangeEnd::Now(now))
                } else {
                    mapped(Time::packed(child), |time: Time| TimeRangeEnd::Time(time))
                },
        )
    }

    fn pack(tree: SyntaxTree<Rule>) -> (r: Result<TimeRangeEnd, PackingError<Rule>>) {
        match get_only_tree_child(tree, Rule::TimeRangeEnd) {
            Err(e) => Err(e),
            Ok(child) => {
                let mut candidates: Vec<Rule> = Vec::new();
                candidates.push(Now::get_rule());
                candidates.push(Time::get_rule());
                assert(candidates@ =~= seq![Rule::Now, Rule::Time]);
                let picked = match select_alternative(child, candidates) {
                    Err(e) => Err(e),
                    Ok((at, child)) => if at == 0 {
                        match Now::pack(child) {
                            Ok(now) => Ok(TimeRangeEnd::Now(now)),
                            Err(e) => Err(e),
                        }
                    } else {
                        match Time::pack(child) {
                            Ok(time) => Ok(TimeRangeEnd::Time(time)),
                            Err(e) => Err(e),
                        }
                    },
                };
                picked.with_rule(Rule::TimeRangeEnd)
            },
        }
    }
}

impl HasRule for TimeRange {
    type Rule = Rule;

    open spec fn rule() -> Rule {
        Rule::TimeRange
    }

    fn get_rule() -> Rule {
        Rule::TimeRange
    }
}

impl TokenPacker for TimeRange {
    /// The start and the end beneath a `time_range` node.
    open spec fn packed(tree: Tree<Rule>) -> Result<TimeRange, ErrorView<Rule>> {
        mapped(
            beneath(tree, Rule::TimeRange, two_packed::<Time, TimeRangeEnd, Rule>(tree.children)),
            |pair: (Time, TimeRangeEnd)| TimeRange(pair.0, pair.1),
        )
    }

    fn pack(tree: SyntaxTree<Rule>) -> (r: Result<TimeRange, PackingError<Rule>>) {
        match unpack_tree_pack_2_children::<Time, TimeRangeEnd, Rule>(tree, Rule::TimeRange) {
            Ok(pair) => Ok(TimeRange(pair.0, pair.1)),
            Err(e) => Err(e),
        }
    }
}

impl HasRule for TimePeriod {
    type Rule = Rule;

    open spec fn rule() -> Rule {
        Rule::TimePeriod
    }

    fn get_rule() -> Rule {
        Rule::TimePeriod
    }
}

impl TokenPacker for TimePeriod {
    /// The only child of a `time_period` node, packed as a length of time or
    /// else as a range of time, whichever its rule says.
    open spec fn packed(tree: Tree<Rule>) -> Result<TimePeriod, ErrorView<Rule>> {
        choice(
            tree,
            Rule::TimePeriod,
            seq![Rule::Period, Rule::TimeRange],
            |at: int, child: Tree<Rule>|
                if at == 0 {
                    mapped(Period::packed(child), |p: Period| TimePeriod::Period(p))
                } else {
                    mapped(TimeRange::packed(child), |r: TimeRange| TimePeriod::TimeRange(r))
                },
        )
    }

    fn pack(tree: SyntaxTree<Rule>) -> (r: Result<TimePeriod, PackingError<Rule>>) {
        match get_only_tree_child(tree, Rule::TimePeriod) {
            Err(e) => Err(e),
            Ok(child) => {
                let mut candidates: Vec<Rule> = Vec::new();
                candidates.push(Period::get_rule());
                candidates.push(TimeRange::get_rule());
                assert(candidates@ =~= seq![Rule::Period, Rule::TimeRange]);
                let picked = match select_alternative(child, candidates) {
                    Err(e) => Err(e),
                    Ok((at, child)) => if at == 0 {
                        match Period::pack(child) {
                            Ok(p) => Ok(TimePeriod::Period(p)),
                            Err(e) => Err(e),
                        }
                    } else {
                        match TimeRange::pack(child) {
                            Ok(range) => Ok(TimePeriod::TimeRange(range)),
                            Err(e) => Err(e),
                        }
                    },
                };
                picked.with_rule(Rule::TimePeriod)
            },
        }
    }
}

impl HasRule for WorkLog {
    type Rule = Rule;

    open spec fn rule() -> Rule {
        Rule::Work
    }

    fn get_rule() -> Rule {
        Rule::Work
    }
}

impl TokenPacker for WorkLog {
    /// The time that is the only child of a `work` node.
    open spec fn packed(tree: Tree<Rule>) -> Result<WorkLog, ErrorView<Rule>> {
        mapped(
            beneath(tree, Rule::Work, one_packed::<TimePeriod>(tree.children)),
            |p: TimePeriod| WorkLog(p),
        )
    }

    fn pack(tree: SyntaxTree<Rule>) -> (r: Result<WorkLog, PackingError<Rule>>) {
        match unpack_tree_pack_1_child::<TimePeriod>(tree, Rule::Work) {
            Ok(p) => Ok(WorkLog(p)),
            Err(e) => Err(e),
        }
    }
}

impl HasRule for WorkingDayLog {
    type Rule = Rule;

    open spec fn rule() -> Rule {
        Rule::WorkingDay
    }

    fn get_rule() -> Rule {
        Rule::WorkingDay
    }
}

impl TokenPacker for WorkingDayLog {
    /// The time that is the only child of a `working_day` node.
    open spec fn packed(tree: Tree<Rule>) -> Result<WorkingDayLog, ErrorView<Rule>> {
        mapped(
            beneath(tree, Rule::WorkingDay, one_packed::<TimePeriod>(tree.children)),
            |p: TimePeriod| WorkingDayLog(p),
        )
    }

    fn pack(tree: SyntaxTree<Rule>) -> (r: Result<WorkingDayLog, PackingError<Rule>>) {
        match unpack_tree_pack_1_child::<TimePeriod>(tree, Rule::WorkingDay) {
            Ok(p) => Ok(WorkingDayLog(p)),
            Err(e) => Err(e),
        }
    }
}

impl HasRule for LunchLog {
    type Rule = Rule;

    open spec fn rule() -> Rule {
        Rule::Lunch
    }

    fn get_rule() -> Rule {
        Rule::Lunch
    }
}

impl TokenPacker for LunchLog {
    /// The time that is the only child of a `lunch` node.
    open spec fn packed(tree: Tree<Rule>) -> Result<LunchLog, ErrorView<Rule>> {
        mapped(
            beneath(tree, Rule::Lunch, one_packed::<TimePeriod>(tree.children)),
            |p: TimePeriod| LunchLog(p),
        )
    }

    fn pack(tree: SyntaxTree<Rule>) -> (r: Result<LunchLog, PackingError<Rule>>) {
        match unpack_tree_pack_1_child::<TimePeriod>(tree, Rule::Lunch) {
            Ok(p) => Ok(LunchLog(p)),
            Err(e) => Err(e),
        }
    }
}

impl HasRule for BreakLog {
    type Rule = Rule;

    open spec fn rule() -> Rule {
        Rule::Break
    }

    fn get_rule() -> Rule {
        Rule::Break
    }
}

impl TokenPacker for BreakLog {
    /// The time that is the only child of a `break` node.
    open spec fn packed(tree: Tree<Rule>) -> Result<BreakLog, ErrorView<Rule>> {
        mapped(
            beneath(tree, Rule::Break, one_packed::<TimePeriod>(tree.children)),
            |p: TimePeriod| BreakLog(p),
        )
    }

    fn pack(tree: SyntaxTree<Rule>) -> (r: Result<BreakLog, PackingError<Rule>>) {
        match unpack_tree_pack_1_child::<TimePeriod>(tree, Rule::Break) {
            Ok(p) => Ok(BreakLog(p)),
            Err(e) => Err(e),
        }
    }
}

impl HasRule for LeaveLog {
    type Rule = Rule;

    open spec fn rule() -> Rule {
        Rule::Leave
    }

    fn get_rule() -> Rule {
        Rule::Leave
    }
}

impl TokenPacker for LeaveLog {
    /// The time that is the only child of a `leave` node.
    open spec fn packed(tree: Tree<Rule>) -> Result<LeaveLog, ErrorView<Rule>> {
        mapped(
            beneath(tree, Rule::Leave, one_packed::<TimePeriod>(tree.children)),
            |p: TimePeriod| LeaveLog(p),
        )
    }

    fn pack(tree: SyntaxTree<Rule>) -> (r: Result<LeaveLog, PackingError<Rule>>) {
        match unpack_tree_pack_1_child::<TimePeriod>(tree, Rule::Leave) {
            Ok(p) => Ok(LeaveLog(p)),
            Err(e) => Err(e),
        }
    }
}

impl HasRule for LogEvent {
    type Rule = Rule;

    open spec fn rule() -> Rule {
        Rule::LogEvent
    }

    fn get_rule() -> Rule {
        Rule::LogEvent
    }
}

impl TokenPacker for LogEvent {
    /// The only child of a `log_event` node, packed as what its rule says:
    /// work, a working day, lunch, a break or leave, tried in that order.
    open spec fn packed(tree: Tree<Rule>) -> Result<LogEvent, ErrorView<Rule>> {
        choice(
            tree,
            Rule::LogEvent,
            seq![Rule::Work, Rule::WorkingDay, Rule::Lunch, Rule::Break, Rule::Leave],
            |at: int, child: Tree<Rule>|
                if at == 0 {
                    mapped(WorkLog::packed(child), |l: WorkLog| LogEvent::Work(l))
                } else if at == 1 {
                    mapped(WorkingDayLog::packed(child), |l: WorkingDayLog| LogEvent::WorkingDay(l))
                } else if at == 2 {
                    mapped(LunchLog::packed(child), |l: LunchLog| LogEvent::Lunch(l))
                } else if at == 3 {
                    mapped(BreakLog::packed(child), |l: BreakLog| LogEvent::Break(l))
                } else {
                    mapped(LeaveLog::packed(child), |l: LeaveLog| LogEvent::Leave(l))
                },
        )
    }

    fn pack(tree: SyntaxTree<Rule>) -> (r: Result<LogEvent, PackingError<Rule>>) {
        match get_only_tree_child(tree, Rule::LogEvent) {
            Err(e) => Err(e),
            Ok(child) => {
                let mut candidates: Vec<Rule> = Vec::new();
                candidates.push(WorkLog::get_rule());
                candidates.push(WorkingDayLog::get_rule());
                candidates.push(LunchLog::get_rule());
                candidates.push(BreakLog::get_rule());
                candidates.push(LeaveLog::get_rule());
                assert(candidates@ =~= seq![
                    Rule::Work,
                    Rule::WorkingDay,
                    Rule::Lunch,
                    Rule::Break,
                    Rule::Leave,
                ]);
                let picked = match select_alternative(child, candidates) {
                    Err(e) => Err(e),
                    Ok((at, child)) => if at == 0 {
                        match WorkLog::pack(child) {
                            Ok(l) => Ok(LogEvent::Work(l)),
                            Err(e) => Err(e),
                        }
                    } else if at == 1 {
                        match WorkingDayLog::pack(child) {
                            Ok(l) => Ok(LogEvent::WorkingDay(l)),
                            Err(e) => Err(e),
                        }
                    } else if at == 2 {
                        match LunchLog::pack(child) {
                            Ok(l) => Ok(LogEvent::Lunch(l)),
                            Err(e) => Err(e),
                        }
                    } else if at == 3 {
                        match BreakLog::pack(child) {
                            Ok(l) => Ok(LogEvent::Break(l)),
                            Err(e) => Err(e),
                        }
                    } else {
                        match LeaveLog::pack(child) {
                            Ok(l) => Ok(LogEvent::Leave(l)),
                            Err(e) => Err(e),
                        }
                    },
                };
                picked.with_rule(Rule::LogEvent)
            },
        }
    }
}

impl HasRule for Log {
    type Rule = Rule;

    open spec fn rule() -> Rule {
        Rule::Log
    }

    fn get_rule() -> Rule {
        Rule::Log
    }
}

impl TokenPacker for Log {
    /// The event that is the only child of a `log` node.
    open spec fn packed(tree: Tree<Rule>) -> Result<Log, ErrorView<Rule>> {
        mapped(
            beneath(tree, Rule::Log, one_packed::<LogEvent>(tree.children)),
            |event: LogEvent| Log(event),
        )
    }

    fn pack(tree: SyntaxTree<Rule>) -> (r: Result<Log, PackingError<Rule>>) {
        match unpack_tree_pack_1_child::<LogEvent>(tree, Rule::Log) {
            Ok(event) => Ok(Log(event)),
            Err(e) => Err(e),
        }
    }
}

impl HasRule for Day {
    type Rule = Rule;

    open spec fn rule() -> Rule {
        Rule::Day
    }

    fn get_rule() -> Rule {
        Rule::Day
    }
}

impl TokenPacker for Day {
    /// The name that is the first child of a `day` node, and the lines that
    /// are the children behind it.
    open spec fn packed(tree: Tree<Rule>) -> Result<DayView, ErrorView<Rule>> {
        mapped(
            beneath(tree, Rule::Day, first_and_rest_packed::<DayName, Log, Rule>(tree.children)),
            |pair: (Seq<char>, Seq<Log>)| DayView { name: pair.0, logs: pair.1 },
        )
    }

    fn pack(tree: SyntaxTree<Rule>) -> (r: Result<Day, PackingError<Rule>>) {
        match unpack_tree_pack_first_and_rest::<DayName, Log, Rule>(tree, Rule::Day) {
            Ok(pair) => Ok(Day(pair.0, pair.1)),
            Err(e) => Err(e),
        }
    }
}

impl HasRule for Days {
    type Rule = Rule;

    open spec fn rule() -> Rule {
        Rule::Days
    }

    fn get_rule() -> Rule {
        Rule::Days
    }
}

impl TokenPacker for Days {
    /// The days that are the children of a `days` node.
    open spec fn packed(tree: Tree<Rule>) -> Result<Seq<DayView>, ErrorView<Rule>> {
        beneath(tree, Rule::Days, each_packed::<Day>(tree.children))
    }

    fn pack(tree: SyntaxTree<Rule>) -> (r: Result<Days, PackingError<Rule>>) {
        match unpack_tree_pack_each_child::<Day>(tree, Rule::Days) {
            Ok(days) => Ok(Days(days)),
            Err(e) => Err(e),
        }
    }
}

impl HasRule for Week {
    type Rule = Rule;

    open spec fn rule() -> Rule {
        Rule::Week
    }

    fn get_rule() -> Rule {
        Rule::Week
    }
}

impl TokenPacker for Week {
    /// The date and the days beneath a `week` node.
    open spec fn packed(tree: Tree<Rule>) -> Result<WeekView, ErrorView<Rule>> {
        mapped(
            beneath(tree, Rule::Week, two_packed::<Date, Days, Rule>(tree.children)),
            |pair: (Seq<char>, Seq<DayView>)| WeekView { date: pair.0, days: pair.1 },
        )
    }

    fn pack(tree: SyntaxTree<Rule>) -> (r: Result<Week, PackingError<Rule>>) {
        match unpack_tree_pack_2_children::<Date, Days, Rule>(tree, Rule::Week) {
            Ok(pair) => Ok(Week(pair.0, pair.1)),
            Err(e) => Err(e),
        }
    }
}

impl HasRule for Weeks {
    type Rule = Rule;

    open spec fn rule() -> Rule {
        Rule::Weeks
    }

    fn get_rule() -> Rule {
        Rule::Weeks
    }
}

impl TokenPacker for Weeks {
    /// The weeks that are the children of a `weeks` node.
    open spec fn packed(tree: Tree<Rule>) -> Result<Seq<WeekView>, ErrorView<Rule>> {
        beneath(tree, Rule::Weeks, each_packed::<Week>(tree.children))
    }

    fn pack(tree: SyntaxTree<Rule>) -> (r: Result<Weeks, PackingError<Rule>>) {
        match unpack_tree_pack_each_child::<Week>(tree, Rule::Weeks) {
            Ok(weeks) => Ok(Weeks(weeks)),
            Err(e) => Err(e),
        }
    }
}

impl HasRule for EOI {
    type Rule = Rule;

    open spec fn rule() -> Rule {
        Rule::Eoi
    }

    fn get_rule() -> Rule {
        Rule::Eoi
    }
}

impl TokenPacker for EOI {
    /// An `EOI` leaf.
    open spec fn packed(tree: Tree<Rule>) -> Result<EOI, ErrorView<Rule>> {
        mapped(tree_src_string(tree, Rule::Eoi), |text: Seq<char>| EOI)
    }

    fn pack(tree: SyntaxTree<Rule>) -> (r: Result<EOI, PackingError<Rule>>) {
        match get_tree_src_string(tree, Rule::Eoi) {
            Ok(_) => Ok(EOI),
            Err(e) => Err(e),
        }
    }
}

impl HasRule for Body {
    type Rule = Rule;

    open spec fn rule() -> Rule {
        Rule::Body
    }

    fn get_rule() -> Rule {
        Rule::Body
    }
}

impl TokenPacker for Body {
    /// The weeks and the end of the input beneath a `body` node.
    open spec fn packed(tree: Tree<Rule>) -> Result<(Seq<WeekView>, EOI), ErrorView<Rule>> {
        beneath(tree, Rule::Body, two_packed::<Weeks, EOI, Rule>(tree.children))
    }

    fn pack(tree: SyntaxTree<Rule>) -> (r: Result<Body, PackingError<Rule>>) {
        match unpack_tree_pack_2_children::<Weeks, EOI, Rule>(tree, Rule::Body) {
            Ok(pair) => Ok(Body(pair.0, pair.1)),
            Err(e) => Err(e),
        }
    }
}

/// The concrete trees of a sequence of raw nodes.
pub open spec fn concrete_all(nodes: Seq<Tree<Rule>>) -> Seq<Tree<Rule>> {
    nodes.map_values(|node: Tree<Rule>| node.concrete())
}

/// The views of a sequence of raw nodes.
pub open spec fn raw_views(nodes: Seq<RawNode<Rule>>) -> Seq<Tree<Rule>> {
    nodes.map_values(|node: RawNode<Rule>| node@)
}

/// What packing the output of the parser gives: exactly one node must have
/// been parsed; its concrete tree is packed as the body of a timesheet, and
/// the weeks of the body are the outcome.
pub open spec fn packed_timesheet(nodes: Seq<Tree<Rule>>) -> Result<Seq<WeekView>, ErrorView<Rule>> {
    match only_tree(concrete_all(nodes)) {
        Err(e) => Err(e),
        Ok(tree) => mapped(Body::packed(tree), |body: (Seq<WeekView>, EOI)| body.0),
    }
}

/// Packs the nodes that the parser gave for a whole timesheet: builds their
/// concrete trees, takes the only one, and packs it as the body. No node and
/// more than one node are the errors of [`only_tree`].
pub fn pack(nodes: Vec<RawNode<Rule>>) -> (r: Result<Weeks, PackingError<Rule>>)
    ensures
        packed_view(r) == packed_timesheet(raw_views(nodes@)),
{
    let ghost sources = nodes@;
    let mut trees: Vec<SyntaxTree<Rule>> = Vec::new();
    assert(trees_view(trees@) =~= concrete_all(raw_views(sources)).take(0));
    for node in iter: nodes
        invariant
            iter.seq() == sources,
            trees_view(trees@) == concrete_all(raw_views(sources)).take(iter.index() as int),
    {
        let ghost before = trees@;
        let tree = SyntaxTree::from(node);
        trees.push(tree);
        assert(trees_view(trees@) =~= trees_view(before).push(tree@));
        assert(trees_view(trees@) =~= concrete_all(raw_views(sources)).take(iter.index() + 1));
    }
    assert(trees_view(trees@) =~= concrete_all(raw_views(sources)));
    match unpack_only_tree(trees) {
        Err(e) => Err(e),
        Ok(tree) => match Body::pack(tree) {
            Ok(body) => Ok(body.0),
            Err(e) => Err(e),
        },
    }
}

} // verus!
