//! Instants on the wall clock of Atlantic Canada, and their text.

use crate::decimal::{
    digit_char, lemma_four_digits, lemma_two_digits, push_zero_padded, zero_padded,
};
use chrono::{Datelike, TimeZone, Timelike};
use vstd::prelude::*;
use vstd::string::*;

verus! {

/// A reading of a wall clock, to the minute: a date of the proleptic
/// Gregorian calendar and a time of day.
#[derive(Clone, Copy, Debug, PartialEq, Eq)]
pub struct WallClock {
    pub year: i32,
    pub month: u32,
    pub day: u32,
    pub hour: u32,
    pub minute: u32,
}

impl WallClock {
    /// The month, the day of the month, the hour and the minute are in the
    /// ranges that a calendar and a 24-hour clock show.
    pub open spec fn is_valid(self) -> bool {
        &&& 1 <= self.month <= 12
        &&& 1 <= self.day <= 31
        &&& self.hour <= 23
        &&& self.minute <= 59
    }
}

/// The first instant that can be put on the wall clock, in milliseconds
/// since the Unix epoch: midnight UTC at the start of 1 January of the year
/// -262143.
pub const MIN_TIMESTAMP_MILLIS: i64 = -8_334_601_228_800_000;

/// The last instant that can be put on the wall clock, in milliseconds
/// since the Unix epoch: the last millisecond UTC of 31 December of the
/// year 262142.
pub const MAX_TIMESTAMP_MILLIS: i64 = 8_210_266_876_799_999;

/// Whether the instant `millis` milliseconds after the Unix epoch can be put
/// on the wall clock.
pub open spec fn localizable(millis: int) -> bool {
    MIN_TIMESTAMP_MILLIS <= millis <= MAX_TIMESTAMP_MILLIS
}

/// What the wall clock of Atlantic Canada shows at the instant `millis`
/// milliseconds after the Unix epoch, by the time zone rules that chrono-tz
/// holds for `Canada/Atlantic`.
pub uninterp spec fn atlantic_civil(millis: int) -> WallClock;

/// Reads the Atlantic Canada wall clock at an instant.
///
/// The instant is made with chrono's `DateTime::from_timestamp_millis`,
/// moved to the zone with `TimeZone::from_utc_datetime` of chrono-tz's
/// `Canada::Atlantic`, and read with `Datelike::{year, month, day}` and
/// `Timelike::{hour, minute}`. Not proved here: that chrono accepts every
/// instant from `MIN_TIMESTAMP_MILLIS` to `MAX_TIMESTAMP_MILLIS`, that the
/// reading depends on the instant alone, and that the month, day, hour and
/// minute lie in the ranges chrono documents for them.
#[verifier::external_body]
fn atlantic_wall_clock(millis: i64) -> (r: WallClock)
    requires
        localizable(millis as int),
    ensures
        r == atlantic_civil(millis as int),
        r.is_valid(),
{
    let utc = chrono::DateTime::from_timestamp_millis(millis).unwrap();
    let local = chrono_tz::Canada::Atlantic.from_utc_datetime(&utc.naive_utc());
    WallClock {
        year: local.year(),
        month: local.month(),
        day: local.day(),
        hour: local.hour(),
        minute: local.minute(),
    }
}

/// Whether `millis` can be put on the wall clock.
pub fn is_localizable(millis: i64) -> (b: bool)
    ensures
        b == localizable(millis as int),
{
    MIN_TIMESTAMP_MILLIS <= millis && millis <= MAX_TIMESTAMP_MILLIS
}

/// The text of a year: four digits from 0 to 9999, and otherwise a sign and
/// at least four digits.
pub open spec fn year_text(year: int) -> Seq<char> {
    if 0 <= year <= 9999 {
        zero_padded(year as nat, 4)
    } else if year < 0 {
        seq!['-'] + zero_padded((-year) as nat, 4)
    } else {
        seq!['+'] + zero_padded(year as nat, 4)
    }
}

/// The text `DD/MM/YYYY HH:MM` of a reading.
pub open spec fn stamp_text(clock: WallClock) -> Seq<char> {
    zero_padded(clock.day as nat, 2) + seq!['/'] + zero_padded(clock.month as nat, 2) + seq!['/']
        + year_text(clock.year as int) + seq![' '] + zero_padded(clock.hour as nat, 2) + seq![':']
        + zero_padded(clock.minute as nat, 2)
}

/// The text of the Atlantic Canada wall clock at the instant `millis`.
pub open spec fn zoned_text(millis: int) -> Seq<char> {
    stamp_text(atlantic_civil(millis))
}

/// From the year 0 to the year 9999 the text of a valid reading is
/// `DD/MM/YYYY HH:MM`: sixteen characters, each field with all its digits.
pub proof fn lemma_stamp_digits(clock: WallClock)
    requires
        clock.is_valid(),
        0 <= clock.year <= 9999,
    ensures
        stamp_text(clock) == seq![
            digit_char(clock.day as int / 10),
            digit_char(clock.day as int % 10),
            '/',
            digit_char(clock.month as int / 10),
            digit_char(clock.month as int % 10),
            '/',
            digit_char(clock.year as int / 1000),
            digit_char(clock.year as int / 100 % 10),
            digit_char(clock.year as int / 10 % 10),
            digit_char(clock.year as int % 10),
            ' ',
            digit_char(clock.hour as int / 10),
            digit_char(clock.hour as int % 10),
            ':',
            digit_char(clock.minute as int / 10),
            digit_char(clock.minute as int % 10),
        ],
{
    lemma_two_digits(clock.day as nat);
    lemma_two_digits(clock.month as nat);
    lemma_four_digits(clock.year as nat);
    lemma_two_digits(clock.hour as nat);
    lemma_two_digits(clock.minute as nat);
    assert(stamp_text(clock) =~= seq![
        digit_char(clock.day as int / 10),
        digit_char(clock.day as int % 10),
        '/',
        digit_char(clock.month as int / 10),
        digit_char(clock.month as int % 10),
        '/',
        digit_char(clock.year as int / 1000),
        digit_char(clock.year as int / 100 % 10),
        digit_char(clock.year as int / 10 % 10),
        digit_char(clock.year as int % 10),
        ' ',
        digit_char(clock.hour as int / 10),
        digit_char(clock.hour as int % 10),
        ':',
        digit_char(clock.minute as int / 10),
        digit_char(clock.minute as int % 10),
    ]);
}

/// Writes the text of a year to the end of `out`.
fn push_year(out: &mut String, year: i32)
    ensures
        final(out)@ == old(out)@ + year_text(year as int),
{
    if 0 <= year && year <= 9999 {
        push_zero_padded(out, year as u32, 4);
    } else if year < 0 {
        proof {
            reveal_strlit("-");
        }
        out.append("-");
        let magnitude: u32 = (0 - year as i64) as u32;
        push_zero_padded(out, magnitude, 4);
        assert(out@ =~= old(out)@ + year_text(year as int));
    } else {
        proof {
            reveal_strlit("+");
        }
        out.append("+");
        push_zero_padded(out, year as u32, 4);
        assert(out@ =~= old(out)@ + year_text(year as int));
    }
}

/// The text `DD/MM/YYYY HH:MM` of a reading.
pub fn format_stamp(clock: &WallClock) -> (r: String)
    ensures
        r@ == stamp_text(*clock),
{
    proof {
        reveal_strlit("/");
        reveal_strlit(" ");
        reveal_strlit(":");
    }
    let mut out = String::new();
    push_zero_padded(&mut out, clock.day, 2);
    out.append("/");
    push_zero_padded(&mut out, clock.month, 2);
    out.append("/");
    push_year(&mut out, clock.year);
    out.append(" ");
    push_zero_padded(&mut out, clock.hour, 2);
    out.append(":");
    push_zero_padded(&mut out, clock.minute, 2);
    assert(out@ =~= stamp_text(*clock));
    out
}

/// The text `DD/MM/YYYY HH:MM` of the Atlantic Canada wall clock at the
/// instant `timestamp` milliseconds after the Unix epoch.
pub fn get_zoned(timestamp: i64) -> (r: String)
    requires
        localizable(timestamp as int),
    ensures
        r@ == zoned_text(timestamp as int),
        atlantic_civil(timestamp as int).is_valid(),
{
    let clock = atlantic_wall_clock(timestamp);
    format_stamp(&clock)
}

} // verus!
