//! Partial date-times as a page shows them, made whole.
//!
//! A fragment is either a time of day, `HH:MM`, taken on today's date, or a
//! day and a month before the time, `DD.MM HH:MM`, taken in this year. The
//! year is never looked for across a year's end.

use crate::clock::{
    date_exists, is_calendar_date, is_clock_time, map_in_local_zone, read_local_clock,
    time_exists, LocalDateTime, LocalMapping,
};
use crate::text::{
    chars_of, lemma_number_lacks, lemma_split_once_at, lemma_split_once_none, parse_u32,
    parse_unsigned, split_at_first, split_once,
};
use vstd::prelude::*;

verus! {

/// Why a fragment is no date-time.
#[derive(Clone, Copy, Debug, PartialEq, Eq, Structural)]
pub enum FormatError {
    /// The time holds no colon.
    MissingColon,
    /// What stands before the colon is no number.
    BadHour,
    /// What stands after the colon is no number.
    BadMinute,
    /// No day has this hour and minute.
    InvalidTime,
    /// The date holds no dot, so no month.
    MissingMonth,
    /// What stands after the first dot is no number.
    BadMonth,
    /// What stands before the first dot is no number.
    BadDay,
    /// This year has no such day.
    InvalidDate,
    /// The zone's rules show this date-time at two instants.
    AmbiguousLocalTime,
    /// The zone's rules show this date-time at no instant.
    NonexistentLocalTime,
}

/// The hour and minute that the text `s` gives: a number, a colon, a number.
/// The text is cut at its first colon.
pub open spec fn time_of_day(s: Seq<char>) -> Result<(u32, u32), FormatError> {
    match split_once(s, ':') {
        None => Err(FormatError::MissingColon),
        Some((hour_text, minute_text)) => match parse_unsigned(hour_text, u32::MAX as nat) {
            None => Err(FormatError::BadHour),
            Some(hour) => match parse_unsigned(minute_text, u32::MAX as nat) {
                None => Err(FormatError::BadMinute),
                Some(minute) => if is_clock_time(hour as int, minute as int, 0) {
                    Ok((hour as u32, minute as u32))
                } else {
                    Err(FormatError::InvalidTime)
                },
            },
        },
    }
}

/// The text of the month in what follows the first dot of a date: all of it
/// up to a second dot, if there is one.
pub open spec fn month_text(after_day: Seq<char>) -> Seq<char> {
    match split_once(after_day, '.') {
        Some((month, _)) => month,
        None => after_day,
    }
}

/// The month and day that the text `s` gives in `year`: a number, a dot, a
/// number, and then nothing or a dot and anything. The month is looked at
/// before the day.
pub open spec fn month_and_day(s: Seq<char>, year: int) -> Result<(u32, u32), FormatError> {
    match split_once(s, '.') {
        None => Err(FormatError::MissingMonth),
        Some((day_text, after_day)) => match parse_unsigned(
            month_text(after_day),
            u32::MAX as nat,
        ) {
            None => Err(FormatError::BadMonth),
            Some(month) => match parse_unsigned(day_text, u32::MAX as nat) {
                None => Err(FormatError::BadDay),
                Some(day) => if is_calendar_date(year, month as int, day as int) {
                    Ok((month as u32, day as u32))
                } else {
                    Err(FormatError::InvalidDate)
                },
            },
        },
    }
}

/// The date-time that the fragment `s` stands for on the day `today`.
///
/// Where `s` holds a space, a date stands before the first one and a time
/// after it; the date is looked at first. Where it holds none, `s` is a time
/// on today's date. Seconds and nanoseconds are zero.
pub open spec fn composed(s: Seq<char>, today: LocalDateTime) -> Result<
    LocalDateTime,
    FormatError,
> {
    match split_once(s, ' ') {
        Some((date_text, time_text)) => match month_and_day(date_text, today.year as int) {
            Err(e) => Err(e),
            Ok((month, day)) => match time_of_day(time_text) {
                Err(e) => Err(e),
                Ok((hour, minute)) => Ok(
                    LocalDateTime {
                        year: today.year,
                        month,
                        day,
                        hour,
                        minute,
                        second: 0,
                        nanosecond: 0,
                    },
                ),
            },
        },
        None => match time_of_day(s) {
            Err(e) => Err(e),
            Ok((hour, minute)) => Ok(
                LocalDateTime {
                    year: today.year,
                    month: today.month,
                    day: today.day,
                    hour,
                    minute,
                    second: 0,
                    nanosecond: 0,
                },
            ),
        },
    }
}

/// A date-time stands only where the zone's rules show it at one instant.
pub open spec fn resolved(t: LocalDateTime, mapping: LocalMapping) -> Result<
    LocalDateTime,
    FormatError,
> {
    match mapping {
        LocalMapping::Unique => Ok(t),
        LocalMapping::Ambiguous => Err(FormatError::AmbiguousLocalTime),
        LocalMapping::Nonexistent => Err(FormatError::NonexistentLocalTime),
    }
}

/// The date-time that the fragment `s` stands for on the day `today`, where
/// the zone's rules map what it composes as `mapping` says.
pub open spec fn normalized(s: Seq<char>, today: LocalDateTime, mapping: LocalMapping) -> Result<
    LocalDateTime,
    FormatError,
> {
    match composed(s, today) {
        Err(e) => Err(e),
        Ok(t) => resolved(t, mapping),
    }
}

/// Reads an hour and a minute from `s`.
pub fn parse_time(s: &[char]) -> (r: Result<(u32, u32), FormatError>)
    ensures
        r == time_of_day(s@),
{
    let (hour_text, minute_text) = match split_at_first(s, ':') {
        Some(parts) => parts,
        None => {
            return Err(FormatError::MissingColon);
        },
    };
    let hour = match parse_u32(hour_text) {
        Some(hour) => hour,
        None => {
            return Err(FormatError::BadHour);
        },
    };
    let minute = match parse_u32(minute_text) {
        Some(minute) => minute,
        None => {
            return Err(FormatError::BadMinute);
        },
    };
    if time_exists(hour, minute, 0) {
        Ok((hour, minute))
    } else {
        Err(FormatError::InvalidTime)
    }
}

/// Reads a month and a day of `year` from `s`.
pub fn parse_date(s: &[char], year: i32) -> (r: Result<(u32, u32), FormatError>)
    ensures
        r == month_and_day(s@, year as int),
{
    let (day_text, after_day) = match split_at_first(s, '.') {
        Some(parts) => parts,
        None => {
            return Err(FormatError::MissingMonth);
        },
    };
    let month_text = match split_at_first(after_day, '.') {
        Some((month_text, _)) => month_text,
        None => after_day,
    };
    let month = match parse_u32(month_text) {
        Some(month) => month,
        None => {
            return Err(FormatError::BadMonth);
        },
    };
    let day = match parse_u32(day_text) {
        Some(day) => day,
        None => {
            return Err(FormatError::BadDay);
        },
    };
    if date_exists(year, month, day) {
        Ok((month, day))
    } else {
        Err(FormatError::InvalidDate)
    }
}

/// Composes the date-time that `value` stands for on the day `today`.
pub fn parse_datetime_at(value: &str, today: &LocalDateTime) -> (r: Result<
    LocalDateTime,
    FormatError,
>)
    ensures
        r == composed(value@, *today),
        today.wf() ==> (r matches Ok(t) ==> t.wf()),
{
    let chars = chars_of(value);
    match split_at_first(chars.as_slice(), ' ') {
        Some((date_text, time_text)) => {
            let (month, day) = match parse_date(date_text, today.year) {
                Ok(date) => date,
                Err(e) => {
                    return Err(e);
                },
            };
            let (hour, minute) = match parse_time(time_text) {
                Ok(time) => time,
                Err(e) => {
                    return Err(e);
                },
            };
            Ok(
                LocalDateTime {
                    year: today.year,
                    month,
                    day,
                    hour,
                    minute,
                    second: 0,
                    nanosecond: 0,
                },
            )
        },
        None => {
            let (hour, minute) = match parse_time(chars.as_slice()) {
                Ok(time) => time,
                Err(e) => {
                    return Err(e);
                },
            };
            Ok(
                LocalDateTime {
                    year: today.year,
                    month: today.month,
                    day: today.day,
                    hour,
                    minute,
                    second: 0,
                    nanosecond: 0,
                },
            )
        },
    }
}

/// Lets a composed date-time stand only where the zone's rules show it at one
/// instant.
pub fn resolve_local(t: LocalDateTime, mapping: LocalMapping) -> (r: Result<
    LocalDateTime,
    FormatError,
>)
    ensures
        r == resolved(t, mapping),
{
    match mapping {
        LocalMapping::Unique => Ok(t),
        LocalMapping::Ambiguous => Err(FormatError::AmbiguousLocalTime),
        LocalMapping::Nonexistent => Err(FormatError::NonexistentLocalTime),
    }
}

/// The date-time that `value` stands for now, by the machine's clock and the
/// rules of its time zone.
///
/// The clock and the zone are read while this runs, so the contract holds for
/// some day and some mapping: [`parse_datetime_at`] and [`resolve_local`] say
/// what comes of each.
pub fn parse_datetime(value: &str) -> (r: Result<LocalDateTime, FormatError>)
    ensures
        exists|today: LocalDateTime, mapping: LocalMapping|
            today.wf() && r == #[trigger] normalized(value@, today, mapping),
        r matches Ok(t) ==> t.wf(),
{
    let today = read_local_clock();
    match parse_datetime_at(value, &today) {
        Ok(t) => {
            let mapping = map_in_local_zone(&t);
            assert(resolved(t, mapping) == normalized(value@, today, mapping));
            resolve_local(t, mapping)
        },
        Err(e) => {
            assert(Err::<LocalDateTime, FormatError>(e) == normalized(
                value@,
                today,
                LocalMapping::Unique,
            ));
            Err(e)
        },
    }
}

/// A time of day is read from a number, a colon and a number, where the
/// numbers are an hour and a minute of the clock.
pub proof fn lemma_time_of_day(hour_text: Seq<char>, minute_text: Seq<char>, hour: u32, minute: u32)
    requires
        parse_unsigned(hour_text, u32::MAX as nat) == Some(hour as nat),
        parse_unsigned(minute_text, u32::MAX as nat) == Some(minute as nat),
        is_clock_time(hour as int, minute as int, 0),
    ensures
        time_of_day(hour_text + seq![':'] + minute_text) == Ok::<(u32, u32), FormatError>(
            (hour, minute),
        ),
        !(hour_text + seq![':'] + minute_text).contains(' '),
{
    let s = hour_text + seq![':'] + minute_text;
    lemma_number_lacks(hour_text, u32::MAX as nat, ':');
    lemma_split_once_at(hour_text, ':', minute_text);
    lemma_number_lacks(hour_text, u32::MAX as nat, ' ');
    lemma_number_lacks(minute_text, u32::MAX as nat, ' ');
}

/// The closing dot that a date may carry behind its month.
pub open spec fn closing_dot(dotted: bool) -> Seq<char> {
    if dotted {
        seq!['.']
    } else {
        Seq::empty()
    }
}

/// A month and a day are read from a number, a dot and a number, with or
/// without a closing dot, where the numbers are a day and a month of `year`.
pub proof fn lemma_month_and_day(
    day_text: Seq<char>,
    month_text: Seq<char>,
    dotted: bool,
    day: u32,
    month: u32,
    year: int,
)
    requires
        parse_unsigned(day_text, u32::MAX as nat) == Some(day as nat),
        parse_unsigned(month_text, u32::MAX as nat) == Some(month as nat),
        is_calendar_date(year, month as int, day as int),
    ensures
        month_and_day(day_text + seq!['.'] + month_text + closing_dot(dotted), year) == Ok::<
            (u32, u32),
            FormatError,
        >((month, day)),
        !(day_text + seq!['.'] + month_text + closing_dot(dotted)).contains(' '),
{
    let after_day = month_text + closing_dot(dotted);
    let s = day_text + seq!['.'] + month_text + closing_dot(dotted);
    assert(s == day_text + seq!['.'] + after_day);
    lemma_number_lacks(day_text, u32::MAX as nat, '.');
    lemma_split_once_at(day_text, '.', after_day);
    lemma_number_lacks(month_text, u32::MAX as nat, '.');
    if dotted {
        lemma_split_once_at(month_text, '.', Seq::empty());
    } else {
        lemma_split_once_none(month_text, '.');
    }
    lemma_number_lacks(day_text, u32::MAX as nat, ' ');
    lemma_number_lacks(month_text, u32::MAX as nat, ' ');
}

/// A time of day alone is taken on today's date.
///
/// For every hour and minute of the clock, written as two numbers with a colon
/// between them, the fragment stands for that time on the day `today`, and
/// stays so where the zone's rules show that time at one instant.
pub proof fn law_time_alone_is_today(
    hour_text: Seq<char>,
    minute_text: Seq<char>,
    hour: u32,
    minute: u32,
    today: LocalDateTime,
)
    requires
        parse_unsigned(hour_text, u32::MAX as nat) == Some(hour as nat),
        parse_unsigned(minute_text, u32::MAX as nat) == Some(minute as nat),
        is_clock_time(hour as int, minute as int, 0),
    ensures
        composed(hour_text + seq![':'] + minute_text, today) == Ok::<LocalDateTime, FormatError>(
            LocalDateTime {
                year: today.year,
                month: today.month,
                day: today.day,
                hour,
                minute,
                second: 0,
                nanosecond: 0,
            },
        ),
        normalized(hour_text + seq![':'] + minute_text, today, LocalMapping::Unique) == composed(
            hour_text + seq![':'] + minute_text,
            today,
        ),
{
    lemma_time_of_day(hour_text, minute_text, hour, minute);
    lemma_split_once_none(hour_text + seq![':'] + minute_text, ' ');
}

/// A day and a month before the time are taken in this year.
///
/// For every day that this year has, written as the day, a dot and the month,
/// with or without a closing dot, and every hour and minute of the clock
/// written behind one space, the fragment stands for that time on that day of
/// the year of `today`, and stays so where the zone's rules show that time at
/// one instant.
pub proof fn law_date_and_time_is_this_year(
    day_text: Seq<char>,
    month_text: Seq<char>,
    dotted: bool,
    hour_text: Seq<char>,
    minute_text: Seq<char>,
    day: u32,
    month: u32,
    hour: u32,
    minute: u32,
    today: LocalDateTime,
)
    requires
        parse_unsigned(day_text, u32::MAX as nat) == Some(day as nat),
        parse_unsigned(month_text, u32::MAX as nat) == Some(month as nat),
        is_calendar_date(today.year as int, month as int, day as int),
        parse_unsigned(hour_text, u32::MAX as nat) == Some(hour as nat),
        parse_unsigned(minute_text, u32::MAX as nat) == Some(minute as nat),
        is_clock_time(hour as int, minute as int, 0),
    ensures
        composed(
            day_text + seq!['.'] + month_text + closing_dot(dotted) + seq![' '] + hour_text + seq![
                ':',
            ] + minute_text,
            today,
        ) == Ok::<LocalDateTime, FormatError>(
            LocalDateTime {
                year: today.year,
                month,
                day,
                hour,
                minute,
                second: 0,
                nanosecond: 0,
            },
        ),
        normalized(
            day_text + seq!['.'] + month_text + closing_dot(dotted) + seq![' '] + hour_text + seq![
                ':',
            ] + minute_text,
            today,
            LocalMapping::Unique,
        ) == composed(
            day_text + seq!['.'] + month_text + closing_dot(dotted) + seq![' '] + hour_text + seq![
                ':',
            ] + minute_text,
            today,
        ),
{
    let date_text = day_text + seq!['.'] + month_text + closing_dot(dotted);
    let time_text = hour_text + seq![':'] + minute_text;
    lemma_month_and_day(day_text, month_text, dotted, day, month, today.year as int);
    lemma_time_of_day(hour_text, minute_text, hour, minute);
    lemma_split_once_at(date_text, ' ', time_text);
    assert(date_text + seq![' '] + time_text == date_text + seq![' '] + hour_text + seq![':']
        + minute_text);
}

} // verus!
