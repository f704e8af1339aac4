//! Times of day.

use vstd::prelude::*;
use chrono::{NaiveTime, Timelike};

verus! {

/// Whether a number of seconds since midnight and a number of nanoseconds
/// make a time of day. The nanoseconds reach a thousand million and more only
/// within a leap second, which follows a 59th second.
pub open spec fn clock_parts(secs: u32, frac: u32) -> bool {
    &&& secs < 86_400
    &&& frac < 2_000_000_000
    &&& frac >= 1_000_000_000 ==> secs % 60 == 59
}

/// A time of day: the seconds since midnight, and the nanoseconds since the
/// last whole second.
#[derive(Clone, Copy, Debug)]
pub struct ClockTime {
    secs: u32,
    frac: u32,
}

/// What the reading of a text as a time of day gives: the seconds since
/// midnight and the nanoseconds of the time, or the message of the failure.
pub uninterp spec fn clock_reading(text: Seq<char>) -> Result<(u32, u32), Seq<char>>;

/// The view of the outcome of reading a time of day.
pub open spec fn reading_view(r: Result<(u32, u32), String>) -> Result<(u32, u32), Seq<char>> {
    match r {
        Ok(parts) => Ok(parts),
        Err(message) => Err(message@),
    }
}

/// The gap from `start` to `end` in nanoseconds, both given as seconds since
/// midnight and nanoseconds. A leap second that lies between the two is
/// counted.
pub open spec fn clock_gap(end: (u32, u32), start: (u32, u32)) -> int {
    let leap: int = if end.0 > start.0 && start.1 >= 1_000_000_000 {
        1
    } else if end.0 < start.0 && end.1 >= 1_000_000_000 {
        -1
    } else {
        0
    };
    (end.0 - start.0 + leap) * 1_000_000_000 + (end.1 - start.1)
}

/// Two decimal digits for a number below a hundred.
pub open spec fn two_digits(n: nat) -> Seq<char> {
    seq![((48 + n / 10) as u8) as char, ((48 + n % 10) as u8) as char]
}

/// "HH:MM" for a number of seconds since midnight.
pub open spec fn hours_and_minutes(secs: u32) -> Seq<char> {
    two_digits((secs / 3600) as nat) + seq![':'] + two_digits((secs / 60 % 60) as nat)
}

/// Calls `str::parse::<NaiveTime>` of chrono. A time is handed on as its
/// seconds since midnight and its nanoseconds, which make a time of day; a
/// failure as its message. The outcome depends on the text alone.
#[verifier::external_body]
fn read_clock(text: &str) -> (r: Result<(u32, u32), String>)
    ensures
        reading_view(r) == clock_reading(text@),
        r matches Ok(parts) ==> clock_parts(parts.0, parts.1),
{
    match text.parse::<NaiveTime>() {
        Ok(time) => Ok((time.num_seconds_from_midnight(), time.nanosecond())),
        Err(e) => Err(format!("{}", e)),
    }
}

/// Calls `NaiveTime::signed_duration_since` of chrono on the two times, and
/// hands on the nanoseconds of the difference.
#[verifier::external_body]
fn gap_nanos(end: (u32, u32), start: (u32, u32)) -> (nanos: i64)
    requires
        clock_parts(end.0, end.1),
        clock_parts(start.0, start.1),
    ensures
        nanos == clock_gap(end, start),
{
    let end = NaiveTime::from_num_seconds_from_midnight_opt(end.0, end.1).unwrap();
    let start = NaiveTime::from_num_seconds_from_midnight_opt(start.0, start.1).unwrap();
    end.signed_duration_since(start).num_nanoseconds().unwrap()
}

/// Formats the time with chrono's `%H:%M`: the hour and the minute, two
/// digits each.
#[verifier::external_body]
fn clock_text(secs: u32, frac: u32) -> (text: String)
    requires
        clock_parts(secs, frac),
    ensures
        text@ == hours_and_minutes(secs),
{
    let time = NaiveTime::from_num_seconds_from_midnight_opt(secs, frac).unwrap();
    format!("{}", time.format("%H:%M"))
}

impl ClockTime {
    #[verifier::type_invariant]
    spec fn valid(self) -> bool {
        clock_parts(self.secs, self.frac)
    }

    /// The time of day with the given parts.
    pub closed spec fn of(secs: u32, frac: u32) -> ClockTime {
        ClockTime { secs, frac }
    }

    /// The seconds since midnight.
    pub closed spec fn seconds(self) -> u32 {
        self.secs
    }

    /// The nanoseconds since the last whole second.
    pub closed spec fn nanos(self) -> u32 {
        self.frac
    }

    /// A time of day is the time of its parts, and those make a time of day.
    pub proof fn lemma_parts(self)
        ensures
            self == ClockTime::of(self.seconds(), self.nanos()),
    {
    }

    /// The parts of the time that is made of them.
    pub proof fn lemma_of(secs: u32, frac: u32)
        ensures
            ClockTime::of(secs, frac).seconds() == secs,
            ClockTime::of(secs, frac).nanos() == frac,
    {
    }

    /// The time of day with the given parts, if they make one.
    pub fn new(secs: u32, frac: u32) -> (time: Option<ClockTime>)
        ensures
            time is Some <==> clock_parts(secs, frac),
            time matches Some(t) ==> t == ClockTime::of(secs, frac),
    {
        if secs < 86_400 && frac < 2_000_000_000 && (frac < 1_000_000_000 || secs % 60 == 59) {
            Some(ClockTime { secs, frac })
        } else {
            None
        }
    }

    /// Reads a time of day as chrono does: hours and minutes, and maybe
    /// seconds with a fraction.
    pub fn parse(text: &str) -> (r: Result<ClockTime, String>)
        ensures
            match r {
                Ok(time) => clock_reading(text@) == Ok::<(u32, u32), Seq<char>>(
                    (time.seconds(), time.nanos()),
                ),
                Err(message) => clock_reading(text@) == Err::<(u32, u32), Seq<char>>(message@),
            },
    {
        match read_clock(text) {
            Ok(parts) => Ok(ClockTime { secs: parts.0, frac: parts.1 }),
            Err(message) => Err(message),
        }
    }

    /// The seconds since midnight.
    pub fn num_seconds_from_midnight(&self) -> (secs: u32)
        ensures
            secs == self.seconds(),
            clock_parts(self.seconds(), self.nanos()),
    {
        proof {
            use_type_invariant(self);
        }
        self.secs
    }

    /// The nanoseconds since the last whole second.
    pub fn nanosecond(&self) -> (frac: u32)
        ensures
            frac == self.nanos(),
    {
        self.frac
    }

    /// The nanoseconds from `start` to this time.
    pub fn nanos_since(&self, start: &ClockTime) -> (nanos: i64)
        ensures
            nanos == clock_gap((self.seconds(), self.nanos()), (start.seconds(), start.nanos())),
    {
        proof {
            use_type_invariant(self);
            use_type_invariant(start);
        }
        gap_nanos((self.secs, self.frac), (start.secs, start.frac))
    }

    /// "HH:MM".
    pub fn render(&self) -> (text: String)
        ensures
            text@ == hours_and_minutes(self.seconds()),
    {
        proof {
            use_type_invariant(self);
        }
        clock_text(self.secs, self.frac)
    }
}

} // verus!
