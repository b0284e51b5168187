//! The lines of text on the clock face.

use std::fmt::Write;
use vstd::prelude::*;
use vstd::string::*;
use crate::schedule::Tick;
use crate::text::{decimal, digit, push_decimal};

verus! {

/// The time of day as the face shows it: the hour of the twelve-hour dial
/// without a leading zero, the minute in two digits, and the half of the day.
pub open spec fn time_text(hour12: int, minute: int, afternoon: bool) -> Seq<char> {
    decimal(hour12 as nat) + seq![':', digit((minute / 10) as nat), digit((minute % 10) as nat), ' ']
        + (if afternoon {
        "PM"@
    } else {
        "AM"@
    })
}

/// The date and time of an instant as `chrono` writes them in a pattern of
/// its own notation; None where the instant lies beyond the calendar that
/// `chrono` covers, or the pattern is none that it can write.
pub uninterp spec fn date_text(secs: int, pattern: Seq<char>) -> Option<Seq<char>>;

/// Writes the instant `secs` seconds after the epoch in the given pattern,
/// with `chrono::DateTime::from_timestamp` and `NaiveDateTime::format`.
/// The text is a matter of the instant and the pattern alone and goes by the
/// name `date_text`.
#[verifier::external_body]
fn format_date(secs: i64, pattern: &str) -> (text: Option<String>)
    ensures
        text is Some <==> date_text(secs as int, pattern@) is Some,
        text is Some ==> date_text(secs as int, pattern@) == Some(text->0@),
{
    let at = chrono::DateTime::from_timestamp(secs, 0)?.naive_utc();
    let mut text = String::new();
    write!(text, "{}", at.format(pattern)).ok()?;
    Some(text)
}

/// The date as the face shows it: the name of the weekday, the name of the
/// month, the day of the month and the year.
pub open spec fn date_pattern() -> Seq<char> {
    "%A %B %_d, %Y"@
}

/// What lies between the figures of temperature and wind, given which of
/// them there are: a blank where there are both.
pub open spec fn joined(temperature: Option<Seq<char>>, wind: Option<Seq<char>>) -> Seq<char> {
    match (temperature, wind) {
        (Some(t), Some(w)) => t + seq![' '] + w,
        (Some(t), None) => t,
        (None, Some(w)) => w,
        (None, None) => Seq::empty(),
    }
}

/// A text that may be missing, as a sequence of characters.
pub open spec fn text_of(text: Option<&str>) -> Option<Seq<char>> {
    match text {
        Some(t) => Some(t@),
        None => None,
    }
}

/// The line that shows temperature and wind, of which either may be
/// missing from the report.
pub fn observation_line(temperature: Option<&str>, wind: Option<&str>) -> (line: String)
    ensures
        line@ == joined(text_of(temperature), text_of(wind)),
{
    let mut line: String = String::new();
    match temperature {
        Some(t) => {
            line.append(t);
        },
        None => {},
    }
    match wind {
        Some(w) => {
            if temperature.is_some() {
                line.append(" ");
            }
            line.append(w);
        },
        None => {},
    }
    proof {
        reveal_strlit(" ");
        assert(line@ =~= joined(text_of(temperature), text_of(wind)));
    }
    line
}

/// The line that shows the time of the tick.
pub fn time_label(tick: &Tick) -> (label: String)
    ensures
        label@ == time_text(tick.spec_hour12(), tick.spec_minute(), tick.spec_hour() >= 12),
{
    let (afternoon, hour12): (bool, u32) = tick.hour12();
    let minute: u32 = tick.minute();
    let mut label: String = String::new();
    push_decimal(&mut label, hour12 as u8);
    label.append(":");
    push_decimal(&mut label, (minute / 10) as u8);
    push_decimal(&mut label, (minute % 10) as u8);
    label.append(" ");
    label.append(if afternoon { "PM" } else { "AM" });
    proof {
        reveal_strlit(":");
        reveal_strlit(" ");
        reveal_with_fuel(decimal, 2);
        assert(label@ =~= time_text(
            tick.spec_hour12(),
            tick.spec_minute(),
            tick.spec_hour() >= 12,
        ));
    }
    label
}

/// The line that shows the date of the tick, where the calendar reaches
/// that far.
pub fn date_label(tick: &Tick) -> (label: Option<String>)
    ensures
        label is Some <==> date_text(tick.seconds(), date_pattern()) is Some,
        label is Some ==> date_text(tick.seconds(), date_pattern()) == Some(label->0@),
{
    format_date(tick.secs(), "%A %B %_d, %Y")
}

} // verus!
