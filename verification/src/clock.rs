//! The time of day shown on the panel, and its text as `chrono` formats it.

use chrono::NaiveTime;
use vstd::prelude::*;

verus! {

/// A time of day: hour, minute and second on a 24-hour clock.
#[derive(Clone, Copy, Debug)]
pub struct ClockTime {
    hour: u8,
    minute: u8,
    second: u8,
}

/// The decimal digit `d` as a character.
pub open spec fn digit(d: int) -> char {
    if d == 0 {
        '0'
    } else if d == 1 {
        '1'
    } else if d == 2 {
        '2'
    } else if d == 3 {
        '3'
    } else if d == 4 {
        '4'
    } else if d == 5 {
        '5'
    } else if d == 6 {
        '6'
    } else if d == 7 {
        '7'
    } else if d == 8 {
        '8'
    } else {
        '9'
    }
}

/// The hour on a 12-hour clock, from 1 to 12.
pub open spec fn hour12(hour: int) -> int {
    if hour % 12 == 0 {
        12
    } else {
        hour % 12
    }
}

/// Hour and minute as five characters: the 12-hour hour padded with a space to
/// two places, a colon, and the minute padded with a zero to two places.
pub open spec fn hour_minute_text(hour: int, minute: int) -> Seq<char> {
    seq![
        if hour12(hour) >= 10 { '1' } else { ' ' },
        digit(hour12(hour) % 10),
        ':',
        digit(minute / 10),
        digit(minute % 10),
    ]
}

/// The second as two characters, padded with a zero.
pub open spec fn second_text(second: int) -> Seq<char> {
    seq![digit(second / 10), digit(second % 10)]
}

/// `NaiveTime::from_hms_opt` and `NaiveTime::format` with the pattern `%l:%M`:
/// the hour of the 12-hour clock (1 to 12) padded with a space to two places,
/// a colon, and the minute padded with a zero to two places. Within the
/// precondition the time is one that `from_hms_opt` accepts.
#[verifier::external_body]
fn format_hour_minute(hour: u32, minute: u32, second: u32) -> (text: String)
    requires
        hour < 24,
        minute < 60,
        second < 60,
    ensures
        text@ == hour_minute_text(hour as int, minute as int),
{
    match NaiveTime::from_hms_opt(hour, minute, second) {
        Some(time) => time.format("%l:%M").to_string(),
        None => String::new(),
    }
}

/// `NaiveTime::from_hms_opt` and `NaiveTime::format` with the pattern `%S`:
/// the second padded with a zero to two places. Within the precondition the
/// time is one that `from_hms_opt` accepts.
#[verifier::external_body]
fn format_second(hour: u32, minute: u32, second: u32) -> (text: String)
    requires
        hour < 24,
        minute < 60,
        second < 60,
    ensures
        text@ == second_text(second as int),
{
    match NaiveTime::from_hms_opt(hour, minute, second) {
        Some(time) => time.format("%S").to_string(),
        None => String::new(),
    }
}

impl ClockTime {
    #[verifier::type_invariant]
    spec fn on_the_dial(self) -> bool {
        self.hour < 24 && self.minute < 60 && self.second < 60
    }

    /// The hour, from 0 to 23.
    pub closed spec fn hour_spec(self) -> int {
        self.hour as int
    }

    /// The minute, from 0 to 59.
    pub closed spec fn minute_spec(self) -> int {
        self.minute as int
    }

    /// The second, from 0 to 59.
    pub closed spec fn second_spec(self) -> int {
        self.second as int
    }

    /// The time of day with the given hour, minute and second; `None` unless
    /// the hour is below 24 and minute and second are below 60.
    pub fn new(hour: u8, minute: u8, second: u8) -> (time: Option<ClockTime>)
        ensures
            time is Some <==> hour < 24 && minute < 60 && second < 60,
            time matches Some(t) ==> t.hour_spec() == hour && t.minute_spec() == minute
                && t.second_spec() == second,
    {
        if hour < 24 && minute < 60 && second < 60 {
            Some(ClockTime { hour, minute, second })
        } else {
            None
        }
    }

    /// The hour, from 0 to 23.
    pub fn hour(&self) -> (hour: u8)
        ensures
            hour == self.hour_spec(),
            hour < 24,
    {
        proof {
            use_type_invariant(self);
        }
        self.hour
    }

    /// The minute, from 0 to 59.
    pub fn minute(&self) -> (minute: u8)
        ensures
            minute == self.minute_spec(),
            minute < 60,
    {
        proof {
            use_type_invariant(self);
        }
        self.minute
    }

    /// The second, from 0 to 59.
    pub fn second(&self) -> (second: u8)
        ensures
            second == self.second_spec(),
            second < 60,
    {
        proof {
            use_type_invariant(self);
        }
        self.second
    }

    /// The text of the large clock line, such as ` 9:05` or `12:34`.
    pub fn hour_minute_string(&self) -> (text: String)
        ensures
            text@ == hour_minute_text(self.hour_spec(), self.minute_spec()),
    {
        proof {
            use_type_invariant(self);
        }
        format_hour_minute(self.hour as u32, self.minute as u32, self.second as u32)
    }

    /// The text of the small clock line, such as `07`.
    pub fn second_string(&self) -> (text: String)
        ensures
            text@ == second_text(self.second_spec()),
    {
        proof {
            use_type_invariant(self);
        }
        format_second(self.hour as u32, self.minute as u32, self.second as u32)
    }
}

} // verus!
