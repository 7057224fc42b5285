//! The state of one match, inferred from the texts of a live-score page.
//!
//! A page shows a match as a record of loosely structured texts: two names,
//! two scores, a status tag, period markers and a clock or a kick-off time.
//! This library tells the phase of the match from them, counts the minute of
//! play, makes partial date-times whole, and assembles the snapshot that is
//! published. It reads no page itself: whoever drives the browser hands the
//! texts in, and is told by two small state machines when to query the page
//! again and when to scrape next.
//!
//! - [`text`]: characters, numbers and searching in a text.
//! - [`clock`]: wall-clock date-times, and what is asked of `chrono`.
//! - [`datetime`]: `HH:MM` and `DD.MM HH:MM` made into date-times.
//! - [`phase`]: scheduled, live, break or finished, with minute or time left.
//! - [`snapshot`]: the record that was read, and the snapshot made of it.
//! - [`locator`]: the search for the record on a page that is still loading.
//! - [`poll`]: the loop that scrapes until it is told to stop.
//! - [`driver`]: the browser drivers.
//! - [`error`]: why a cycle yields no snapshot.

pub mod clock;
pub mod datetime;
pub mod driver;
pub mod error;
pub mod locator;
pub mod phase;
pub mod poll;
pub mod snapshot;
pub mod text;
