//! Why a scrape cycle yields no snapshot.

use vstd::prelude::*;

verus! {

/// A field of the match record that a snapshot cannot do without.
#[derive(Clone, Copy, Debug, PartialEq, Eq, Structural)]
pub enum Field {
    HomeTeam,
    AwayTeam,
    HomeScore,
    AwayScore,
    StatusTag,
    /// The period markers, which only a live match needs.
    PeriodMarkers,
}

/// Why a scrape cycle yields no snapshot.
#[derive(Clone, Copy, Debug, PartialEq, Eq, Structural)]
pub enum ScrapeError {
    /// The session could not reach the page.
    Navigation,
    /// No match record appeared within the attempts allowed.
    NotFound,
    /// A field that the snapshot needs could not be read, or was empty.
    FieldRead(Field),
    /// A match is live and no period of it is complete.
    PreconditionViolation,
    /// Neither team's name matches the name that was asked for.
    UnknownTeam,
}

} // verus!
