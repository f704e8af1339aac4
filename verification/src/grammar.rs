//! The rules of the timesheet grammar.

use vstd::prelude::*;
use vstd::string::*;
use crate::rules::{DropRules, RuleType};

verus! {

/// The productions of the timesheet grammar.
#[derive(Clone, Copy, Debug, PartialEq, Eq, Structural, Hash)]
pub enum Rule {
    Eoi,
    Tab,
    Date,
    DayName,
    Time,
    Numbers,
    PeriodMinutes,
    PeriodHours,
    PeriodHoursMinutes,
    Period,
    Now,
    TimeRangeEnd,
    TimeRange,
    TimePeriod,
    Work,
    WorkingDay,
    Lunch,
    Break,
    Leave,
    LogEvent,
    Log,
    Day,
    Days,
    Week,
    Weeks,
    Body,
}

impl Rule {
    /// The name of the production in the grammar.
    pub fn as_str(&self) -> (name: &'static str)
        ensures
            name@ == self.name_spec(),
    {
        match self {
            Rule::Eoi => "EOI",
            Rule::Tab => "TAB",
            Rule::Date => "DATE",
            Rule::DayName => "DAY_NAME",
            Rule::Time => "TIME",
            Rule::Numbers => "numbers",
            Rule::PeriodMinutes => "PERIOD_MINUTES",
            Rule::PeriodHours => "PERIOD_HOURS",
            Rule::PeriodHoursMinutes => "period_hours_minutes",
            Rule::Period => "PERIOD",
            Rule::Now => "NOW",
            Rule::TimeRangeEnd => "time_range_end",
            Rule::TimeRange => "time_range",
            Rule::TimePeriod => "time_period",
            Rule::Work => "work",
            Rule::WorkingDay => "working_day",
            Rule::Lunch => "lunch",
            Rule::Break => "break",
            Rule::Leave => "leave",
            Rule::LogEvent => "log_event",
            Rule::Log => "log",
            Rule::Day => "day",
            Rule::Days => "days",
            Rule::Week => "week",
            Rule::Weeks => "weeks",
            Rule::Body => "body",
        }
    }
}

impl RuleType for Rule {
    open spec fn name_spec(self) -> Seq<char> {
        match self {
            Rule::Eoi => "EOI"@,
            Rule::Tab => "TAB"@,
            Rule::Date => "DATE"@,
            Rule::DayName => "DAY_NAME"@,
            Rule::Time => "TIME"@,
            Rule::Numbers => "numbers"@,
            Rule::PeriodMinutes => "PERIOD_MINUTES"@,
            Rule::PeriodHours => "PERIOD_HOURS"@,
            Rule::PeriodHoursMinutes => "period_hours_minutes"@,
            Rule::Period => "PERIOD"@,
            Rule::Now => "NOW"@,
            Rule::TimeRangeEnd => "time_range_end"@,
            Rule::TimeRange => "time_range"@,
            Rule::TimePeriod => "time_period"@,
            Rule::Work => "work"@,
            Rule::WorkingDay => "working_day"@,
            Rule::Lunch => "lunch"@,
            Rule::Break => "break"@,
            Rule::Leave => "leave"@,
            Rule::LogEvent => "log_event"@,
            Rule::Log => "log"@,
            Rule::Day => "day"@,
            Rule::Days => "days"@,
            Rule::Week => "week"@,
            Rule::Weeks => "weeks"@,
            Rule::Body => "body"@,
        }
    }

    fn same(&self, other: &Self) -> (same: bool) {
        *self == *other
    }

    fn name(&self) -> (name: String) {
        String::from_str(self.as_str())
    }
}

impl DropRules for Rule {
    /// Tabs are layout: they are dropped beneath every rule.
    open spec fn drop_rules(self) -> Seq<Rule> {
        seq![Rule::Tab]
    }

    fn get_drop_rules(&self) -> (rules: Vec<Rule>) {
        let mut rules: Vec<Rule> = Vec::new();
        rules.push(Rule::Tab);
        assert(rules@ =~= seq![Rule::Tab]);
        rules
    }
}

} // verus!
