//! One snapshot of a match, assembled from the texts of its record.

use crate::clock::{read_local_clock, LocalDateTime, LocalMapping};
use crate::error::{Field, ScrapeError};
use crate::phase::{
    classified, classify_at, completed_periods, count_completed_periods, kickoff_mapping,
    marker_texts, read_status, scheduled_phase, status_of, text_of, MatchPhase, Status,
    PERIOD_MINUTES,
};
use crate::text::{chars_of, parse_u64, parse_unsigned, starts_with};
use vstd::prelude::*;

verus! {

/// The pause that is recommended between opening the page and first looking at
/// it, in milliseconds.
pub const RECOMMENDED_SETTLE_MS: u64 = 500;

/// The texts of a match record as they were read from the page. A text that
/// could not be read is missing.
#[derive(Clone, Debug, PartialEq, Eq)]
pub struct RawRecord {
    /// The name of the home team.
    pub home_team: Option<String>,
    /// The name of the away team.
    pub away_team: Option<String>,
    /// The goals of the home team, as shown.
    pub home_score: Option<String>,
    /// The goals of the away team, as shown.
    pub away_score: Option<String>,
    /// The status tag of the record.
    pub status_tag: Option<String>,
    /// The kick-off, where the record shows one.
    pub kickoff: Option<String>,
    /// One text for each period marker of the record, in the page's order;
    /// missing where the record could not be asked for its markers.
    pub period_markers: Option<Vec<Option<String>>>,
    /// The time played in the running period, where the record shows one.
    pub elapsed: Option<String>,
}

/// A [`RawRecord`] as plain texts.
pub struct RecordView {
    pub home_team: Option<Seq<char>>,
    pub away_team: Option<Seq<char>>,
    pub home_score: Option<Seq<char>>,
    pub away_score: Option<Seq<char>>,
    pub status_tag: Option<Seq<char>>,
    pub kickoff: Option<Seq<char>>,
    pub period_markers: Option<Seq<Option<Seq<char>>>>,
    pub elapsed: Option<Seq<char>>,
}

/// The text of a field that may be missing.
pub open spec fn field_text(field: Option<String>) -> Option<Seq<char>> {
    match field {
        Some(text) => Some(text@),
        None => None,
    }
}

impl View for RawRecord {
    type V = RecordView;

    open spec fn view(&self) -> RecordView {
        RecordView {
            home_team: field_text(self.home_team),
            away_team: field_text(self.away_team),
            home_score: field_text(self.home_score),
            away_score: field_text(self.away_score),
            status_tag: field_text(self.status_tag),
            kickoff: field_text(self.kickoff),
            period_markers: match self.period_markers {
                Some(markers) => Some(marker_texts(markers@)),
                None => None,
            },
            elapsed: field_text(self.elapsed),
        }
    }
}

impl RawRecord {
    /// The period markers of the record are few enough for the minutes of
    /// their periods to be counted in a `u64`.
    pub open spec fn countable(&self) -> bool {
        self.period_markers matches Some(markers) ==> markers@.len() * PERIOD_MINUTES <= u64::MAX
    }
}

/// What one cycle read from the page.
#[derive(Clone, Debug, PartialEq, Eq)]
pub enum PageReading {
    /// The session could not reach the page.
    Unreachable,
    /// The page was reached, and showed no match record within the attempts
    /// allowed.
    NoRecord,
    /// The texts of the first match record that the page showed.
    Record(RawRecord),
}

/// A [`PageReading`] with its record as plain texts.
pub enum ReadingView {
    Unreachable,
    NoRecord,
    Record(RecordView),
}

impl View for PageReading {
    type V = ReadingView;

    open spec fn view(&self) -> ReadingView {
        match self {
            PageReading::Unreachable => ReadingView::Unreachable,
            PageReading::NoRecord => ReadingView::NoRecord,
            PageReading::Record(record) => ReadingView::Record(record@),
        }
    }
}

impl PageReading {
    /// The period markers of the record are few enough for the minutes of
    /// their periods to be counted in a `u64`.
    pub open spec fn countable(&self) -> bool {
        self matches PageReading::Record(record) ==> record.countable()
    }
}

/// The state of one match at one moment, seen from the side of one team.
#[derive(Clone, Debug, PartialEq, Eq)]
pub struct MatchSnapshot {
    pub my_team: String,
    pub my_team_score: u64,
    pub opponent_team: String,
    pub opponent_team_score: u64,
    pub phase: MatchPhase,
    /// The wall-clock time at which the snapshot was made, not a time of the
    /// match.
    pub generated_at: LocalDateTime,
}

/// A [`MatchSnapshot`] with its names as plain texts.
pub struct SnapshotView {
    pub my_team: Seq<char>,
    pub my_team_score: u64,
    pub opponent_team: Seq<char>,
    pub opponent_team_score: u64,
    pub phase: MatchPhase,
    pub generated_at: LocalDateTime,
}

impl View for MatchSnapshot {
    type V = SnapshotView;

    open spec fn view(&self) -> SnapshotView {
        SnapshotView {
            my_team: self.my_team@,
            my_team_score: self.my_team_score,
            opponent_team: self.opponent_team@,
            opponent_team_score: self.opponent_team_score,
            phase: self.phase,
            generated_at: self.generated_at,
        }
    }
}

/// The field was read and holds at least one character.
pub open spec fn is_filled(field: Option<Seq<char>>) -> bool {
    field matches Some(text) && text.len() > 0
}

/// The first field that the snapshot needs and the record lacks, in the order
/// home team, away team, home score, away score, status tag. A team's name and
/// the status tag are needed with something in them; of a score only the text,
/// whatever it holds.
pub open spec fn first_missing_field(record: RecordView) -> Option<Field> {
    if !is_filled(record.home_team) {
        Some(Field::HomeTeam)
    } else if !is_filled(record.away_team) {
        Some(Field::AwayTeam)
    } else if record.home_score is None {
        Some(Field::HomeScore)
    } else if record.away_score is None {
        Some(Field::AwayScore)
    } else if !is_filled(record.status_tag) {
        Some(Field::StatusTag)
    } else {
        None
    }
}

/// The goals that a score text shows: its number, and 0 where it is none.
pub open spec fn lenient_score(text: Seq<char>) -> u64 {
    match parse_unsigned(text, u64::MAX as nat) {
        Some(goals) => goals as u64,
        None => 0,
    }
}

/// The name that a page shows and the name that was asked for stand for one
/// team where one of them begins with the other, letter for letter: a page may
/// show a name in short, `Alpha` for `Alpha FC`, or in full, `Alpha FC` for
/// `Alpha`.
pub open spec fn names_match(shown: Seq<char>, team: Seq<char>) -> bool {
    team.is_prefix_of(shown) || shown.is_prefix_of(team)
}

/// The phase of the match that a record shows, its required fields being
/// there. A live match needs its period markers; for any other they are not
/// looked at.
pub open spec fn phase_of(record: RecordView, now: LocalDateTime, mapping: LocalMapping) -> Result<
    MatchPhase,
    ScrapeError,
> {
    let tag = record.status_tag->0;
    match record.period_markers {
        None => if status_of(tag) is Live {
            Err(ScrapeError::FieldRead(Field::PeriodMarkers))
        } else {
            classified(tag, 0, record.elapsed, record.kickoff, now, mapping)
        },
        Some(markers) => classified(
            tag,
            completed_periods(markers),
            record.elapsed,
            record.kickoff,
            now,
            mapping,
        ),
    }
}

/// The snapshot that a record gives for the team named `team`, made at the
/// time `now`, `mapping` being how the zone's rules map the kick-off shown.
///
/// A missing field comes first, then a phase that cannot be told, then the
/// team: the home team is mine where its name matches `team`, else the away
/// team where its name does, and where neither does there is no snapshot.
pub open spec fn snapshot_of(
    record: RecordView,
    team: Seq<char>,
    now: LocalDateTime,
    mapping: LocalMapping,
) -> Result<SnapshotView, ScrapeError> {
    match first_missing_field(record) {
        Some(field) => Err(ScrapeError::FieldRead(field)),
        None => match phase_of(record, now, mapping) {
            Err(e) => Err(e),
            Ok(phase) => {
                let home = record.home_team->0;
                let away = record.away_team->0;
                let home_score = lenient_score(record.home_score->0);
                let away_score = lenient_score(record.away_score->0);
                if names_match(home, team) {
                    Ok(
                        SnapshotView {
                            my_team: home,
                            my_team_score: home_score,
                            opponent_team: away,
                            opponent_team_score: away_score,
                            phase,
                            generated_at: now,
                        },
                    )
                } else if names_match(away, team) {
                    Ok(
                        SnapshotView {
                            my_team: away,
                            my_team_score: away_score,
                            opponent_team: home,
                            opponent_team_score: home_score,
                            phase,
                            generated_at: now,
                        },
                    )
                } else {
                    Err(ScrapeError::UnknownTeam)
                }
            },
        },
    }
}

/// What a cycle comes to for the team named `team`: no snapshot where the page
/// was not reached or showed no record, and else the snapshot that the record
/// gives.
pub open spec fn extracted(
    reading: ReadingView,
    team: Seq<char>,
    now: LocalDateTime,
    mapping: LocalMapping,
) -> Result<SnapshotView, ScrapeError> {
    match reading {
        ReadingView::Unreachable => Err(ScrapeError::Navigation),
        ReadingView::NoRecord => Err(ScrapeError::NotFound),
        ReadingView::Record(record) => snapshot_of(record, team, now, mapping),
    }
}

/// What a function gave is what `expected` asks for, the snapshot taken by
/// its view.
pub open spec fn gives(
    r: Result<MatchSnapshot, ScrapeError>,
    expected: Result<SnapshotView, ScrapeError>,
) -> bool {
    match r {
        Ok(snapshot) => expected == Ok::<SnapshotView, ScrapeError>(snapshot@),
        Err(e) => expected == Err::<SnapshotView, ScrapeError>(e),
    }
}

/// Reads the goals from a score text, 0 where it shows no number.
pub fn parse_score(text: &str) -> (goals: u64)
    ensures
        goals == lenient_score(text@),
{
    let chars = chars_of(text);
    match parse_u64(chars.as_slice()) {
        Some(goals) => goals,
        None => 0,
    }
}

/// Whether the name `name` that a page shows stands for the team named `team`.
pub fn is_my_team(name: &str, team: &str) -> (mine: bool)
    ensures
        mine == names_match(name@, team@),
{
    let name = chars_of(name);
    let team = chars_of(team);
    starts_with(name.as_slice(), team.as_slice()) || starts_with(
        team.as_slice(),
        name.as_slice(),
    )
}

/// Takes the text of a field that must be there, with something in it unless
/// `may_be_empty`.
fn take_field(field: Option<String>, which: Field, may_be_empty: bool) -> (r: Result<
    String,
    ScrapeError,
>)
    ensures
        match r {
            Ok(text) => field == Some(text) && (may_be_empty || text@.len() > 0),
            Err(e) => e == ScrapeError::FieldRead(which) && if may_be_empty {
                field is None
            } else {
                !is_filled(field_text(field))
            },
        },
{
    match field {
        Some(text) => {
            if may_be_empty || !text.as_str().is_empty() {
                Ok(text)
            } else {
                Err(ScrapeError::FieldRead(which))
            }
        },
        None => Err(ScrapeError::FieldRead(which)),
    }
}

/// The text of a fragment that may be missing, borrowed.
fn as_fragment(field: &Option<String>) -> (fragment: Option<&str>)
    ensures
        text_of(fragment) == field_text(*field),
{
    match field {
        Some(text) => Some(text.as_str()),
        None => None,
    }
}

/// Assembles the snapshot that a record gives for the team named `team_name`,
/// at the time `now`, `mapping` being how the zone's rules map the kick-off
/// that the record shows.
pub fn assemble_snapshot(
    record: RawRecord,
    team_name: &str,
    now: &LocalDateTime,
    mapping: LocalMapping,
) -> (r: Result<MatchSnapshot, ScrapeError>)
    requires
        now.wf(),
        record.countable(),
    ensures
        gives(r, snapshot_of(record@, team_name@, *now, mapping)),
{
    let RawRecord {
        home_team,
        away_team,
        home_score,
        away_score,
        status_tag,
        kickoff,
        period_markers,
        elapsed,
    } = record;
    let home_team = match take_field(home_team, Field::HomeTeam, false) {
        Ok(text) => text,
        Err(e) => {
            return Err(e);
        },
    };
    let away_team = match take_field(away_team, Field::AwayTeam, false) {
        Ok(text) => text,
        Err(e) => {
            return Err(e);
        },
    };
    let home_score = match take_field(home_score, Field::HomeScore, true) {
        Ok(text) => text,
        Err(e) => {
            return Err(e);
        },
    };
    let away_score = match take_field(away_score, Field::AwayScore, true) {
        Ok(text) => text,
        Err(e) => {
            return Err(e);
        },
    };
    let status_tag = match take_field(status_tag, Field::StatusTag, false) {
        Ok(text) => text,
        Err(e) => {
            return Err(e);
        },
    };
    let completed = match &period_markers {
        Some(markers) => count_completed_periods(markers),
        None => match read_status(status_tag.as_str()) {
            Status::Live => {
                return Err(ScrapeError::FieldRead(Field::PeriodMarkers));
            },
            _ => 0,
        },
    };
    let phase = match classify_at(
        status_tag.as_str(),
        completed,
        as_fragment(&elapsed),
        as_fragment(&kickoff),
        now,
        mapping,
    ) {
        Ok(phase) => phase,
        Err(e) => {
            return Err(e);
        },
    };
    let home_goals = parse_score(home_score.as_str());
    let away_goals = parse_score(away_score.as_str());
    if is_my_team(home_team.as_str(), team_name) {
        Ok(
            MatchSnapshot {
                my_team: home_team,
                my_team_score: home_goals,
                opponent_team: away_team,
                opponent_team_score: away_goals,
                phase,
                generated_at: *now,
            },
        )
    } else if is_my_team(away_team.as_str(), team_name) {
        Ok(
            MatchSnapshot {
                my_team: away_team,
                my_team_score: away_goals,
                opponent_team: home_team,
                opponent_team_score: home_goals,
                phase,
                generated_at: *now,
            },
        )
    } else {
        Err(ScrapeError::UnknownTeam)
    }
}

/// What a cycle comes to for the team named `team_name`, at the time `now`,
/// `mapping` being how the zone's rules map the kick-off that the record
/// shows.
pub fn get_score_at(
    reading: PageReading,
    team_name: &str,
    now: &LocalDateTime,
    mapping: LocalMapping,
) -> (r: Result<MatchSnapshot, ScrapeError>)
    requires
        now.wf(),
        reading.countable(),
    ensures
        gives(r, extracted(reading@, team_name@, *now, mapping)),
{
    match reading {
        PageReading::Unreachable => Err(ScrapeError::Navigation),
        PageReading::NoRecord => Err(ScrapeError::NotFound),
        PageReading::Record(record) => assemble_snapshot(record, team_name, now, mapping),
    }
}

/// What a cycle comes to for the team named `team_name`, by the machine's
/// clock and the rules of its time zone.
///
/// The clock and the zone are read while this runs, so the contract holds for
/// some time and some mapping: [`get_score_at`] says what comes of each.
pub fn get_score(reading: PageReading, team_name: &str) -> (r: Result<MatchSnapshot, ScrapeError>)
    requires
        reading.countable(),
    ensures
        exists|now: LocalDateTime, mapping: LocalMapping|
            now.wf() && gives(r, #[trigger] extracted(reading@, team_name@, now, mapping)),
        reading is Unreachable ==> r == Err::<MatchSnapshot, ScrapeError>(ScrapeError::Navigation),
        reading is NoRecord ==> r == Err::<MatchSnapshot, ScrapeError>(ScrapeError::NotFound),
{
    let now = read_local_clock();
    let mapping = match &reading {
        PageReading::Record(record) => kickoff_mapping(as_fragment(&record.kickoff), &now),
        _ => LocalMapping::Unique,
    };
    get_score_at(reading, team_name, &now, mapping)
}

/// A snapshot tells the two teams of its record apart: one of them is mine,
/// with its own goals, its name matches the name asked for, and the other is
/// the opponent.
pub proof fn law_one_team_is_mine(
    record: RecordView,
    team: Seq<char>,
    now: LocalDateTime,
    mapping: LocalMapping,
)
    ensures
        snapshot_of(record, team, now, mapping) matches Ok(snapshot) ==> {
            let home = (record.home_team->0, lenient_score(record.home_score->0));
            let away = (record.away_team->0, lenient_score(record.away_score->0));
            let mine = (snapshot.my_team, snapshot.my_team_score);
            let theirs = (snapshot.opponent_team, snapshot.opponent_team_score);
            &&& names_match(snapshot.my_team, team)
            &&& (mine == home && theirs == away) || (mine == away && theirs == home)
            &&& snapshot.generated_at == now
        },
{
}

/// The home team is mine wherever its name matches the name asked for, be the
/// shown name the shorter or the longer of the two: the record then gives a
/// snapshot with the home team's name and goals as mine, unless its phase
/// cannot be told.
pub proof fn law_matching_home_team_is_mine(
    record: RecordView,
    team: Seq<char>,
    now: LocalDateTime,
    mapping: LocalMapping,
)
    requires
        first_missing_field(record) is None,
        team.is_prefix_of(record.home_team->0) || (record.home_team->0).is_prefix_of(team),
    ensures
        snapshot_of(record, team, now, mapping) == match phase_of(record, now, mapping) {
            Ok(phase) => Ok::<SnapshotView, ScrapeError>(
                SnapshotView {
                    my_team: record.home_team->0,
                    my_team_score: lenient_score(record.home_score->0),
                    opponent_team: record.away_team->0,
                    opponent_team_score: lenient_score(record.away_score->0),
                    phase,
                    generated_at: now,
                },
            ),
            Err(e) => Err::<SnapshotView, ScrapeError>(e),
        },
{
}

/// A record whose tag marks the match neither live nor scheduled gives a
/// snapshot of a finished match, whatever its markers, its clock and its
/// kick-off show, as long as its names and scores were read and one of its
/// teams matches the name asked for.
pub proof fn law_finished_record_gives_finished(
    record: RecordView,
    team: Seq<char>,
    now: LocalDateTime,
    mapping: LocalMapping,
)
    requires
        first_missing_field(record) is None,
        status_of(record.status_tag->0) is Finished,
        names_match(record.home_team->0, team) || names_match(record.away_team->0, team),
    ensures
        snapshot_of(record, team, now, mapping) matches Ok(snapshot) && snapshot.phase
            == MatchPhase::Finished,
{
}

/// The kick-off that a reading shows, where it holds the record of a scheduled
/// match.
pub open spec fn shown_kickoff(reading: ReadingView) -> Option<Option<Seq<char>>> {
    match reading {
        ReadingView::Record(record) => if is_filled(record.status_tag) && status_of(
            record.status_tag->0,
        ) is Scheduled {
            Some(record.kickoff)
        } else {
            None
        },
        _ => None,
    }
}

/// Two cycles on a page that has not changed come to the same, but for the
/// time at which the snapshot was made.
///
/// This holds of a match that is live or over, whenever the cycles run, and of
/// a scheduled match as long as the time left until the kick-off reads the
/// same at both times: that time is part of the snapshot, and runs down.
pub proof fn law_same_page_same_snapshot(
    reading: ReadingView,
    team: Seq<char>,
    first: LocalDateTime,
    first_mapping: LocalMapping,
    second: LocalDateTime,
    second_mapping: LocalMapping,
)
    requires
        shown_kickoff(reading) matches Some(kickoff) ==> scheduled_phase(
            kickoff,
            first,
            first_mapping,
        ) == scheduled_phase(kickoff, second, second_mapping),
    ensures
        match extracted(reading, team, first, first_mapping) {
            Ok(a) => extracted(reading, team, second, second_mapping) == Ok::<
                SnapshotView,
                ScrapeError,
            >(SnapshotView { generated_at: second, ..a }),
            Err(e) => extracted(reading, team, second, second_mapping) == Err::<
                SnapshotView,
                ScrapeError,
            >(e),
        },
{
}

} // verus!
