use livescore::clock::{LocalDateTime, LocalMapping};
use livescore::error::ScrapeError;
use livescore::phase::{
    classify, classify_at, count_completed_periods, countdown_from, get_minute_of_game,
    read_status, time_until_kickoff, MatchPhase, Status, PERIOD_MINUTES,
};

const LIVE: &str = "event__match event__match--live event__match--twoLine";
const SCHEDULED: &str = "event__match event__match--scheduled event__match--twoLine";
const FINISHED: &str = "event__match event__match--twoLine";

fn clock(hour: u32, minute: u32, second: u32, nanosecond: u32) -> LocalDateTime {
    LocalDateTime::new(2024, 9, 7, hour, minute, second, nanosecond).unwrap()
}

#[test]
fn period_is_twenty_minutes() {
    assert_eq!(PERIOD_MINUTES, 20);
}

#[test]
fn status_from_the_tag() {
    assert_eq!(read_status(LIVE), Status::Live);
    assert_eq!(read_status(SCHEDULED), Status::Scheduled);
    assert_eq!(read_status(FINISHED), Status::Finished);
    assert_eq!(read_status(""), Status::Finished);
    assert_eq!(read_status("event__match--liv"), Status::Finished);
    assert_eq!(read_status("event__match-live"), Status::Finished);
    assert_eq!(read_status("event__match--live"), Status::Live);
    assert_eq!(read_status("xevent__match--livex"), Status::Live);
    assert_eq!(read_status("event__match--scheduled event__match--live"), Status::Live);
    assert_eq!(read_status("Event__match--live"), Status::Finished);
}

#[test]
fn finished_whatever_else_is_shown() {
    let now = clock(15, 45, 0, 0);
    for completed in [0u64, 1, 2, 3, 100] {
        for elapsed in [None, Some("5"), Some("x"), Some("")] {
            for kickoff in [None, Some("18:00"), Some("07.09. 18:00"), Some("x")] {
                for mapping in
                    [LocalMapping::Unique, LocalMapping::Ambiguous, LocalMapping::Nonexistent]
                {
                    assert_eq!(
                        classify_at(FINISHED, completed, elapsed, kickoff, &now, mapping),
                        Ok(MatchPhase::Finished)
                    );
                }
                assert_eq!(classify(FINISHED, completed, elapsed, kickoff), Ok(MatchPhase::Finished));
            }
        }
    }
}

#[test]
fn finished_or_scheduled_however_many_periods_are_shown() {
    let now = clock(15, 45, 0, 0);
    assert_eq!(
        classify_at(FINISHED, u64::MAX, Some("5"), None, &now, LocalMapping::Unique),
        Ok(MatchPhase::Finished)
    );
    assert_eq!(classify(FINISHED, u64::MAX, None, None), Ok(MatchPhase::Finished));
    assert_eq!(
        classify_at(SCHEDULED, u64::MAX, None, Some("18:00"), &now, LocalMapping::Unique),
        Ok(MatchPhase::Scheduled { time_until: Some((2, 15)) })
    );
    assert_eq!(
        classify(SCHEDULED, u64::MAX, None, None),
        Ok(MatchPhase::Scheduled { time_until: None })
    );
}

#[test]
fn live_with_one_period_and_no_time_is_a_break() {
    assert_eq!(get_minute_of_game(1, None), Ok(MatchPhase::Break { elapsed_minutes: 20 }));
    assert_eq!(
        classify_at(LIVE, 1, None, None, &clock(15, 45, 0, 0), LocalMapping::Unique),
        Ok(MatchPhase::Break { elapsed_minutes: 20 })
    );
    assert_eq!(classify(LIVE, 1, None, None), Ok(MatchPhase::Break { elapsed_minutes: 20 }));
}

#[test]
fn live_with_two_periods_and_five_minutes() {
    assert_eq!(get_minute_of_game(2, Some("5")), Ok(MatchPhase::Live { elapsed_minutes: 25 }));
    assert_eq!(
        classify_at(LIVE, 2, Some("5"), None, &clock(15, 45, 0, 0), LocalMapping::Unique),
        Ok(MatchPhase::Live { elapsed_minutes: 25 })
    );
    assert_eq!(classify(LIVE, 2, Some("5"), Some("18:00")), Ok(MatchPhase::Live { elapsed_minutes: 25 }));
}

#[test]
fn live_without_a_period_is_refused() {
    assert_eq!(get_minute_of_game(0, None), Err(ScrapeError::PreconditionViolation));
    assert_eq!(get_minute_of_game(0, Some("5")), Err(ScrapeError::PreconditionViolation));
    assert_eq!(
        classify_at(LIVE, 0, Some("5"), None, &clock(15, 45, 0, 0), LocalMapping::Unique),
        Err(ScrapeError::PreconditionViolation)
    );
    assert_eq!(classify(LIVE, 0, None, None), Err(ScrapeError::PreconditionViolation));
}

#[test]
fn minute_mark_is_dropped() {
    assert_eq!(get_minute_of_game(1, Some("10'")), Ok(MatchPhase::Live { elapsed_minutes: 10 }));
    assert_eq!(get_minute_of_game(3, Some("19'")), Ok(MatchPhase::Live { elapsed_minutes: 59 }));
    assert_eq!(get_minute_of_game(1, Some("0")), Ok(MatchPhase::Live { elapsed_minutes: 0 }));
    assert_eq!(get_minute_of_game(2, Some("10''")), Ok(MatchPhase::Break { elapsed_minutes: 40 }));
    assert_eq!(get_minute_of_game(2, Some("'10")), Ok(MatchPhase::Break { elapsed_minutes: 40 }));
}

#[test]
fn time_that_is_no_number_is_a_break() {
    assert_eq!(get_minute_of_game(2, Some("")), Ok(MatchPhase::Break { elapsed_minutes: 40 }));
    assert_eq!(get_minute_of_game(2, Some("'")), Ok(MatchPhase::Break { elapsed_minutes: 40 }));
    assert_eq!(get_minute_of_game(2, Some("half")), Ok(MatchPhase::Break { elapsed_minutes: 40 }));
    assert_eq!(get_minute_of_game(2, Some(" 5")), Ok(MatchPhase::Break { elapsed_minutes: 40 }));
    assert_eq!(get_minute_of_game(3, None), Ok(MatchPhase::Break { elapsed_minutes: 60 }));
}

#[test]
fn minute_that_a_u64_cannot_hold_is_a_break() {
    assert_eq!(
        get_minute_of_game(1, Some("18446744073709551615")),
        Ok(MatchPhase::Live { elapsed_minutes: u64::MAX })
    );
    assert_eq!(
        get_minute_of_game(2, Some("18446744073709551615")),
        Ok(MatchPhase::Break { elapsed_minutes: 40 })
    );
    assert_eq!(
        get_minute_of_game(2, Some("18446744073709551595")),
        Ok(MatchPhase::Live { elapsed_minutes: u64::MAX })
    );
    assert_eq!(
        get_minute_of_game(1, Some("18446744073709551616")),
        Ok(MatchPhase::Break { elapsed_minutes: 20 })
    );
}

#[test]
fn played_periods_are_counted() {
    assert_eq!(count_completed_periods(&vec![]), 0);
    assert_eq!(count_completed_periods(&vec![Some("1".to_string())]), 1);
    assert_eq!(
        count_completed_periods(&vec![Some("1".to_string()), Some(String::new()), None]),
        1
    );
    assert_eq!(
        count_completed_periods(&vec![
            Some("1".to_string()),
            Some("0".to_string()),
            Some(" ".to_string()),
            None,
            Some(String::new()),
        ]),
        3
    );
}

#[test]
fn seconds_into_hours_and_minutes() {
    assert_eq!(countdown_from(2 * 3600 + 15 * 60), (2, 15));
    assert_eq!(countdown_from(2 * 3600 + 15 * 60 + 59), (2, 15));
    assert_eq!(countdown_from(59), (0, 0));
    assert_eq!(countdown_from(60), (0, 1));
    assert_eq!(countdown_from(3599), (0, 59));
    assert_eq!(countdown_from(3600), (1, 0));
    assert_eq!(countdown_from(100 * 3600 + 7 * 60), (100, 7));
    assert_eq!(countdown_from(0), (0, 0));
    assert_eq!(countdown_from(-1), (0, 0));
    assert_eq!(countdown_from(i64::MIN), (0, 0));
    assert_eq!(countdown_from(i64::MAX), (2562047788015215, 30));
}

#[test]
fn time_left_until_the_kickoff() {
    let kickoff = clock(18, 0, 0, 0);
    assert_eq!(time_until_kickoff(&kickoff, &clock(15, 45, 0, 0)), (2, 15));
    assert_eq!(time_until_kickoff(&kickoff, &clock(15, 45, 0, 1)), (2, 14));
    assert_eq!(time_until_kickoff(&kickoff, &clock(15, 44, 59, 999_999_999)), (2, 15));
    assert_eq!(time_until_kickoff(&kickoff, &clock(17, 59, 59, 0)), (0, 0));
    assert_eq!(time_until_kickoff(&kickoff, &clock(18, 0, 0, 0)), (0, 0));
    assert_eq!(time_until_kickoff(&kickoff, &clock(18, 0, 0, 1)), (0, 0));
    assert_eq!(time_until_kickoff(&kickoff, &clock(23, 0, 0, 0)), (0, 0));
    let next_year = LocalDateTime::new(2025, 9, 7, 18, 0, 0, 0).unwrap();
    assert_eq!(time_until_kickoff(&next_year, &kickoff), (365 * 24, 0));
    assert_eq!(time_until_kickoff(&kickoff, &next_year), (0, 0));
}

#[test]
fn scheduled_in_two_hours_and_a_quarter() {
    let now = clock(15, 45, 0, 0);
    assert_eq!(
        classify_at(SCHEDULED, 0, None, Some("18:00"), &now, LocalMapping::Unique),
        Ok(MatchPhase::Scheduled { time_until: Some((2, 15)) })
    );
    assert_eq!(
        classify_at(SCHEDULED, 0, None, Some("07.09. 18:00"), &now, LocalMapping::Unique),
        Ok(MatchPhase::Scheduled { time_until: Some((2, 15)) })
    );
    assert_eq!(
        classify_at(SCHEDULED, 0, None, Some("08.09. 18:00"), &now, LocalMapping::Unique),
        Ok(MatchPhase::Scheduled { time_until: Some((26, 15)) })
    );
}

#[test]
fn scheduled_in_the_past() {
    let now = clock(15, 45, 0, 0);
    assert_eq!(
        classify_at(SCHEDULED, 0, None, Some("12:00"), &now, LocalMapping::Unique),
        Ok(MatchPhase::Scheduled { time_until: Some((0, 0)) })
    );
    assert_eq!(
        classify_at(SCHEDULED, 0, None, Some("15:45"), &now, LocalMapping::Unique),
        Ok(MatchPhase::Scheduled { time_until: Some((0, 0)) })
    );
    assert_eq!(
        classify_at(SCHEDULED, 0, None, Some("06.09. 18:00"), &now, LocalMapping::Unique),
        Ok(MatchPhase::Scheduled { time_until: Some((0, 0)) })
    );
}

#[test]
fn scheduled_with_a_kickoff_that_is_none() {
    let now = clock(15, 45, 0, 0);
    assert_eq!(
        classify_at(SCHEDULED, 0, None, Some("soon"), &now, LocalMapping::Unique),
        Ok(MatchPhase::Scheduled { time_until: None })
    );
    assert_eq!(
        classify_at(SCHEDULED, 0, None, Some("31.02. 18:00"), &now, LocalMapping::Unique),
        Ok(MatchPhase::Scheduled { time_until: None })
    );
    assert_eq!(
        classify_at(SCHEDULED, 0, None, None, &now, LocalMapping::Unique),
        Ok(MatchPhase::Scheduled { time_until: None })
    );
    assert_eq!(
        classify(SCHEDULED, 0, None, Some("soon")),
        Ok(MatchPhase::Scheduled { time_until: None })
    );
    assert_eq!(classify(SCHEDULED, 0, None, None), Ok(MatchPhase::Scheduled { time_until: None }));
}

#[test]
fn scheduled_at_a_time_that_the_zone_does_not_show_once() {
    let now = clock(15, 45, 0, 0);
    assert_eq!(
        classify_at(SCHEDULED, 0, None, Some("18:00"), &now, LocalMapping::Ambiguous),
        Ok(MatchPhase::Scheduled { time_until: None })
    );
    assert_eq!(
        classify_at(SCHEDULED, 0, None, Some("18:00"), &now, LocalMapping::Nonexistent),
        Ok(MatchPhase::Scheduled { time_until: None })
    );
}

#[test]
fn scheduled_by_the_clock() {
    match classify(SCHEDULED, 3, Some("5"), Some("00:00")) {
        Ok(MatchPhase::Scheduled { time_until: Some((0, 0)) }) => {}
        other => panic!("{:?}", other),
    }
    match classify(SCHEDULED, 0, None, Some("23:59")) {
        Ok(MatchPhase::Scheduled { time_until: Some((hours, minutes)) }) => {
            assert!(hours < 24);
            assert!(minutes < 60);
        }
        other => panic!("{:?}", other),
    }
}
