//! The phase of a match, from what its record shows.
//!
//! A status tag tells whether the match is live, scheduled or over. A live
//! match gets its minute from the periods played and the time shown within the
//! running one; a scheduled match gets the time left until its kick-off.

use crate::clock::{
    count_seconds_between, map_in_local_zone, read_local_clock, seconds_between, LocalDateTime,
    LocalMapping,
};
use crate::datetime::{composed, normalized, parse_datetime_at, resolve_local};
use crate::error::ScrapeError;
use crate::text::{chars_of, contains, has_substring, parse_bounded, parse_unsigned};
use vstd::prelude::*;
use vstd::slice::slice_subrange;

verus! {

/// The length of one period of play, in minutes.
pub const PERIOD_MINUTES: u64 = 20;

/// Where a match stands.
#[derive(Clone, Copy, Debug, PartialEq, Eq)]
pub enum MatchPhase {
    /// Not yet started. `time_until` holds the hours and minutes left until
    /// the kick-off, both zero where the kick-off has passed, and nothing
    /// where the kick-off is not known.
    Scheduled { time_until: Option<(u64, u64)> },
    /// In play, in this minute of the match.
    Live { elapsed_minutes: u64 },
    /// Between two periods, after this minute of the match.
    Break { elapsed_minutes: u64 },
    /// Over.
    Finished,
}

/// What a status tag says of a match.
#[derive(Clone, Copy, Debug, PartialEq, Eq, Structural)]
pub enum Status {
    Live,
    Scheduled,
    Finished,
}

/// The run of characters in a status tag that marks a live match.
pub open spec fn live_marker() -> Seq<char> {
    "event__match--live"@
}

/// The run of characters in a status tag that marks a scheduled match.
pub open spec fn scheduled_marker() -> Seq<char> {
    "event__match--scheduled"@
}

/// What the status tag `tag` says: live where it holds the live marker,
/// else scheduled where it holds the scheduled marker, else over.
pub open spec fn status_of(tag: Seq<char>) -> Status {
    if has_substring(tag, live_marker()) {
        Status::Live
    } else if has_substring(tag, scheduled_marker()) {
        Status::Scheduled
    } else {
        Status::Finished
    }
}

/// Reads the status from a tag.
pub fn read_status(tag: &str) -> (status: Status)
    ensures
        status == status_of(tag@),
{
    let tag = chars_of(tag);
    let live = chars_of("event__match--live");
    let scheduled = chars_of("event__match--scheduled");
    if contains(tag.as_slice(), live.as_slice()) {
        Status::Live
    } else if contains(tag.as_slice(), scheduled.as_slice()) {
        Status::Scheduled
    } else {
        Status::Finished
    }
}

/// The text of a fragment that may be missing.
pub open spec fn text_of(fragment: Option<&str>) -> Option<Seq<char>> {
    match fragment {
        Some(s) => Some(s@),
        None => None,
    }
}

/// A period marker shows its period as played where it was read and is not
/// empty.
pub open spec fn is_played(marker: Option<Seq<char>>) -> bool {
    marker matches Some(text) && text.len() > 0
}

/// How many of the period markers show their period as played.
pub open spec fn completed_periods(markers: Seq<Option<Seq<char>>>) -> nat
    decreases markers.len(),
{
    if markers.len() == 0 {
        0
    } else {
        completed_periods(markers.drop_last()) + if is_played(markers.last()) {
            1nat
        } else {
            0nat
        }
    }
}

/// The texts of period markers, each as it was read or missing.
pub open spec fn marker_texts(markers: Seq<Option<String>>) -> Seq<Option<Seq<char>>> {
    markers.map_values(
        |marker: Option<String>|
            match marker {
                Some(text) => Some(text@),
                None => None,
            },
    )
}

/// Counts the period markers that show their period as played.
pub fn count_completed_periods(markers: &Vec<Option<String>>) -> (count: u64)
    ensures
        count == completed_periods(marker_texts(markers@)),
        count <= markers@.len(),
{
    let ghost texts = marker_texts(markers@);
    let n = markers.len();
    let mut count: u64 = 0;
    let mut i: usize = 0;
    while i < n
        invariant
            i <= n,
            n == markers@.len(),
            texts == marker_texts(markers@),
            count == completed_periods(texts.take(i as int)),
            count <= i,
        decreases n - i,
    {
        let played = match &markers[i] {
            Some(text) => !text.as_str().is_empty(),
            None => false,
        };
        assert(texts.take(i + 1).drop_last() == texts.take(i as int));
        if played {
            count += 1;
        }
        i += 1;
    }
    assert(texts.take(n as int) == texts);
    count
}

/// `s` without one closing minute mark `'`, if it ends in one.
pub open spec fn without_minute_mark(s: Seq<char>) -> Seq<char> {
    if s.len() > 0 && s.last() == '\'' {
        s.drop_last()
    } else {
        s
    }
}

/// The minute at which the period now running began, `completed` periods
/// being shown as played, the running one among them.
pub open spec fn period_start(completed: nat) -> int {
    (completed - 1) * PERIOD_MINUTES
}

/// The phase of a live match.
///
/// With no period shown as played the record contradicts itself. Where the
/// time within the running period is shown as a number, with or without a
/// minute mark behind it, the match is in play in the minute that many past
/// the period's start, as long as a `u64` holds that minute. Else the period
/// has just ended, and the match pauses at its last minute.
pub open spec fn live_phase(completed: nat, elapsed: Option<Seq<char>>) -> Result<
    MatchPhase,
    ScrapeError,
> {
    if completed == 0 {
        Err(ScrapeError::PreconditionViolation)
    } else {
        let start = period_start(completed);
        let shown = match elapsed {
            Some(text) => parse_unsigned(without_minute_mark(text), (u64::MAX - start) as nat),
            None => None,
        };
        match shown {
            Some(minutes) => Ok(MatchPhase::Live { elapsed_minutes: (start + minutes) as u64 }),
            None => Ok(MatchPhase::Break { elapsed_minutes: (start + PERIOD_MINUTES) as u64 }),
        }
    }
}

/// The phase of a live match with `completed_periods` periods shown as played
/// and `elapsed` shown as the time within the running one.
pub fn get_minute_of_game(completed_periods: u64, elapsed: Option<&str>) -> (r: Result<
    MatchPhase,
    ScrapeError,
>)
    requires
        completed_periods * PERIOD_MINUTES <= u64::MAX,
    ensures
        r == live_phase(completed_periods as nat, text_of(elapsed)),
        completed_periods == 0 <==> r is Err,
        r matches Err(e) ==> e == ScrapeError::PreconditionViolation,
        r matches Ok(MatchPhase::Live { elapsed_minutes }) ==> elapsed_minutes >= (completed_periods
            - 1) * PERIOD_MINUTES,
        r matches Ok(MatchPhase::Break { elapsed_minutes }) ==> elapsed_minutes == completed_periods
            * PERIOD_MINUTES,
        r matches Ok(phase) ==> phase is Live || phase is Break,
{
    if completed_periods == 0 {
        return Err(ScrapeError::PreconditionViolation);
    }
    let start = (completed_periods - 1) * PERIOD_MINUTES;
    let shown = match elapsed {
        Some(text) => {
            let chars = chars_of(text);
            let n = chars.len();
            let digits = if n > 0 && chars[n - 1] == '\'' {
                slice_subrange(chars.as_slice(), 0, n - 1)
            } else {
                chars.as_slice()
            };
            parse_bounded(digits, u64::MAX - start)
        },
        None => None,
    };
    match shown {
        Some(minutes) => Ok(MatchPhase::Live { elapsed_minutes: start + minutes }),
        None => Ok(MatchPhase::Break { elapsed_minutes: start + PERIOD_MINUTES }),
    }
}

/// The hours, and the minutes beyond them, in `seconds`; both zero where
/// `seconds` is not positive. Part of a minute is cut off.
pub open spec fn countdown(seconds: int) -> (u64, u64) {
    if seconds <= 0 {
        (0, 0)
    } else {
        ((seconds / 3600) as u64, ((seconds / 60) % 60) as u64)
    }
}

/// Splits a count of seconds into hours and minutes.
pub fn countdown_from(seconds: i64) -> (r: (u64, u64))
    ensures
        r == countdown(seconds as int),
        r.1 < 60,
{
    if seconds <= 0 {
        (0, 0)
    } else {
        ((seconds / 3600) as u64, ((seconds / 60) % 60) as u64)
    }
}

/// A time left of so many hours, minutes under sixty and seconds under sixty
/// counts down as those hours and those minutes.
pub proof fn law_countdown_of_hours_and_minutes(hours: u64, minutes: u64, seconds: u64)
    requires
        minutes < 60,
        seconds < 60,
    ensures
        countdown(hours * 3600 + minutes * 60 + seconds) == (hours, minutes),
{
}

/// The hours and minutes from `now` until `kickoff`: both zero where the
/// kick-off is not after `now`.
pub open spec fn time_until(kickoff: LocalDateTime, now: LocalDateTime) -> (u64, u64) {
    if kickoff.at_or_before(&now) {
        (0, 0)
    } else {
        countdown(seconds_between(kickoff, now))
    }
}

/// Measures the time from `now` until `kickoff`.
pub fn time_until_kickoff(kickoff: &LocalDateTime, now: &LocalDateTime) -> (r: (u64, u64))
    requires
        kickoff.wf(),
        now.wf(),
    ensures
        r == time_until(*kickoff, *now),
        kickoff.at_or_before(now) ==> r == (0u64, 0u64),
{
    if kickoff.is_at_or_before(now) {
        (0, 0)
    } else {
        countdown_from(count_seconds_between(kickoff, now))
    }
}

/// The phase of a scheduled match whose kick-off is shown as `kickoff`, at the
/// time `now`: the time left where the fragment is a date-time that the zone's
/// rules, in `mapping`, show at one instant, and nothing known where it is
/// missing or is none.
pub open spec fn scheduled_phase(
    kickoff: Option<Seq<char>>,
    now: LocalDateTime,
    mapping: LocalMapping,
) -> MatchPhase {
    match kickoff {
        None => MatchPhase::Scheduled { time_until: None },
        Some(text) => match normalized(text, now, mapping) {
            Err(_) => MatchPhase::Scheduled { time_until: None },
            Ok(at) => MatchPhase::Scheduled { time_until: Some(time_until(at, now)) },
        },
    }
}

/// The phase of a match from what its record shows.
///
/// A tag that marks the match neither live nor scheduled makes it finished,
/// whatever else is shown.
pub open spec fn classified(
    tag: Seq<char>,
    completed: nat,
    elapsed: Option<Seq<char>>,
    kickoff: Option<Seq<char>>,
    now: LocalDateTime,
    mapping: LocalMapping,
) -> Result<MatchPhase, ScrapeError> {
    match status_of(tag) {
        Status::Finished => Ok(MatchPhase::Finished),
        Status::Scheduled => Ok(scheduled_phase(kickoff, now, mapping)),
        Status::Live => live_phase(completed, elapsed),
    }
}

/// Classifies a match at the time `now`, `mapping` being how the zone's rules
/// map the kick-off that the record shows.
pub fn classify_at(
    tag: &str,
    completed_periods: u64,
    elapsed: Option<&str>,
    kickoff: Option<&str>,
    now: &LocalDateTime,
    mapping: LocalMapping,
) -> (r: Result<MatchPhase, ScrapeError>)
    requires
        now.wf(),
        status_of(tag@) is Live ==> completed_periods * PERIOD_MINUTES <= u64::MAX,
    ensures
        r == classified(
            tag@,
            completed_periods as nat,
            text_of(elapsed),
            text_of(kickoff),
            *now,
            mapping,
        ),
        status_of(tag@) is Finished ==> r == Ok::<MatchPhase, ScrapeError>(MatchPhase::Finished),
        r is Err <==> status_of(tag@) is Live && completed_periods == 0,
        r matches Err(e) ==> e == ScrapeError::PreconditionViolation,
        status_of(tag@) is Scheduled ==> match text_of(kickoff) {
            None => r == Ok::<MatchPhase, ScrapeError>(MatchPhase::Scheduled { time_until: None }),
            Some(text) => match normalized(text, *now, mapping) {
                Err(_) => r == Ok::<MatchPhase, ScrapeError>(
                    MatchPhase::Scheduled { time_until: None },
                ),
                Ok(at) => at.at_or_before(now) ==> r == Ok::<MatchPhase, ScrapeError>(
                    MatchPhase::Scheduled { time_until: Some((0u64, 0u64)) },
                ),
            },
        },
{
    match read_status(tag) {
        Status::Finished => Ok(MatchPhase::Finished),
        Status::Live => get_minute_of_game(completed_periods, elapsed),
        Status::Scheduled => {
            let composed = match kickoff {
                Some(text) => parse_datetime_at(text, now),
                None => {
                    return Ok(MatchPhase::Scheduled { time_until: None });
                },
            };
            let at = match composed {
                Ok(at) => resolve_local(at, mapping),
                Err(e) => Err(e),
            };
            match at {
                Ok(at) => Ok(
                    MatchPhase::Scheduled { time_until: Some(time_until_kickoff(&at, now)) },
                ),
                Err(_) => Ok(MatchPhase::Scheduled { time_until: None }),
            }
        },
    }
}

/// How the machine's time zone maps the kick-off that `kickoff` stands for on
/// the day `now`; `Unique` where it stands for none.
pub(crate) fn kickoff_mapping(kickoff: Option<&str>, now: &LocalDateTime) -> (mapping:
    LocalMapping)
    requires
        now.wf(),
    ensures
        (kickoff matches Some(text) ==> composed(text@, *now) is Err) ==> mapping
            == LocalMapping::Unique,
{
    match kickoff {
        Some(text) => match parse_datetime_at(text, now) {
            Ok(at) => map_in_local_zone(&at),
            Err(_) => LocalMapping::Unique,
        },
        None => LocalMapping::Unique,
    }
}

/// Classifies a match by the machine's clock and the rules of its time zone.
///
/// The clock and the zone are read while this runs, so the contract holds for
/// some time and some mapping: [`classify_at`] says what comes of each.
pub fn classify(
    tag: &str,
    completed_periods: u64,
    elapsed: Option<&str>,
    kickoff: Option<&str>,
) -> (r: Result<MatchPhase, ScrapeError>)
    requires
        status_of(tag@) is Live ==> completed_periods * PERIOD_MINUTES <= u64::MAX,
    ensures
        exists|now: LocalDateTime, mapping: LocalMapping|
            now.wf() && r == #[trigger] classified(
                tag@,
                completed_periods as nat,
                text_of(elapsed),
                text_of(kickoff),
                now,
                mapping,
            ),
        status_of(tag@) is Finished ==> r == Ok::<MatchPhase, ScrapeError>(MatchPhase::Finished),
        status_of(tag@) is Live ==> r == live_phase(completed_periods as nat, text_of(elapsed)),
        r is Err <==> status_of(tag@) is Live && completed_periods == 0,
{
    let now = read_local_clock();
    let mapping = kickoff_mapping(kickoff, &now);
    classify_at(tag, completed_periods, elapsed, kickoff, &now, mapping)
}

} // verus!
