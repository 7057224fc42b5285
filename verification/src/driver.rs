//! The browser drivers that can serve a session.

use crate::text::{chars_of, starts_with};
use vstd::prelude::*;

verus! {

/// The port on which the driver listens.
pub const DRIVER_PORT: u16 = 9515;

/// A browser driver.
#[derive(Clone, Copy, Debug, PartialEq, Eq, Structural)]
pub enum Driver {
    Chromium,
    Firefox,
}

/// The name of the program that runs `driver`.
pub open spec fn driver_cmd(driver: Driver) -> Seq<char> {
    match driver {
        Driver::Chromium => "chromedriver"@,
        Driver::Firefox => "geckodriver"@,
    }
}

/// The capabilities, as JSON, that make the browser of `driver` run without a
/// window.
pub open spec fn headless_capabilities(driver: Driver) -> Seq<char> {
    match driver {
        Driver::Chromium => "{\"goog:chromeOptions\":{\"args\":[\"--headless\"]}}"@,
        Driver::Firefox => "{\"moz:firefoxOptions\": {\"args\": [\"--headless\"]}}"@,
    }
}

/// The name of the program that runs `driver`.
pub fn get_driver_cmd(driver: Driver) -> (cmd: &'static str)
    ensures
        cmd@ == driver_cmd(driver),
{
    match driver {
        Driver::Chromium => "chromedriver",
        Driver::Firefox => "geckodriver",
    }
}

/// The capabilities to ask of a session with `driver`, as JSON.
pub fn get_driver_capabilities(driver: Driver) -> (json: &'static str)
    ensures
        json@ == headless_capabilities(driver),
{
    match driver {
        Driver::Chromium => "{\"goog:chromeOptions\":{\"args\":[\"--headless\"]}}",
        Driver::Firefox => "{\"moz:firefoxOptions\": {\"args\": [\"--headless\"]}}",
    }
}

/// Whether a process of the name `process_name` runs `driver`: its name is the
/// driver's program, letter for letter.
pub fn is_driver_process(driver: Driver, process_name: &str) -> (b: bool)
    ensures
        b == (process_name@ == driver_cmd(driver)),
{
    let name = chars_of(process_name);
    let cmd = chars_of(get_driver_cmd(driver));
    if name.len() != cmd.len() {
        return false;
    }
    let same = starts_with(name.as_slice(), cmd.as_slice());
    assert(name@.subrange(0, name@.len() as int) == name@);
    same
}

} // verus!
