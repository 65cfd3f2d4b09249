//! The time stamp that names the temporary build folder.
use vstd::prelude::*;
use std::time::Duration;
use std::time::SystemTime;
use std::time::SystemTimeError;

verus! {

/// `std::time::SystemTime`, a point in time read from the system clock.
#[verifier::external_type_specification]
#[verifier::external_body]
pub struct ExSystemTime(SystemTime);

/// `std::time::SystemTimeError`, a clock that reads before the Unix epoch.
#[verifier::external_type_specification]
#[verifier::external_body]
pub struct ExSystemTimeError(SystemTimeError);

/// `SystemTime::now`: the current time.  Nothing is promised of it.
#[verifier::external_body]
fn system_now() -> SystemTime {
    SystemTime::now()
}

/// `SystemTime::duration_since(UNIX_EPOCH)`: how long after the Unix epoch
/// `t` is, or an error when it is before.  Nothing is promised of either.
#[verifier::external_body]
fn since_unix_epoch(t: &SystemTime) -> Result<Duration, SystemTimeError> {
    t.duration_since(std::time::UNIX_EPOCH)
}

/// `Duration::as_secs`: the whole seconds in `d`.  Nothing is promised of it.
#[verifier::external_body]
fn whole_seconds(d: &Duration) -> u64 {
    d.as_secs()
}

/// The system clock reads before the Unix epoch.
#[derive(Debug)]
pub struct ClockBeforeEpoch;

impl ClockBeforeEpoch {
    /// The report shown to the user, as `SystemTimeError` displays it.
    pub fn message(&self) -> (s: String)
        ensures
            s@ == "second time provided was later than self"@,
    {
        String::from_str("second time provided was later than self")
    }
}

/// The whole seconds since the Unix epoch on the system clock, or an error
/// when the clock reads before the epoch.  The value depends on the clock,
/// and nothing more is claimed of it.
pub fn timestamp() -> (r: Result<u64, ClockBeforeEpoch>)
{
    let now = system_now();
    match since_unix_epoch(&now) {
        Ok(d) => Ok(whole_seconds(&d)),
        Err(_) => Err(ClockBeforeEpoch),
    }
}

} // verus!
