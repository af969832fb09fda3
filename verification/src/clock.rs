//! The wall clock: the system time, turned into a calendar year by chrono.
use vstd::prelude::*;
use chrono::Datelike;

verus! {

/// The earliest calendar year that chrono's dates can hold.
pub const CHRONO_MIN_YEAR: i32 = -262143;

/// The latest calendar year that chrono's dates can hold.
pub const CHRONO_MAX_YEAR: i32 = 262142;

/// The latest number of seconds since the Unix epoch for which chrono is
/// sure to give a date (it gives dates up to the year 262142).
pub const LATEST_SECONDS: i64 = 8_000_000_000_000;

/// Why the clock could not be read as a year.
#[derive(Debug, Clone, Copy, PartialEq, Eq, Structural)]
pub enum ClockError {
    /// The system time lies before the Unix epoch.
    BeforeEpoch,
    /// The system time lies past the dates that chrono can hold.
    OutOfRange,
}

/// The calendar year, in UTC, of the instant `secs` seconds after the Unix
/// epoch, as `chrono::DateTime::from_timestamp` and `Datelike::year` give it.
pub uninterp spec fn utc_year_of(secs: i64) -> i32;

/// A year that the clock can give: a year of chrono's range that some
/// instant at or after the Unix epoch falls in.
pub open spec fn clock_year(y: i32) -> bool {
    &&& CHRONO_MIN_YEAR <= y <= CHRONO_MAX_YEAR
    &&& exists|s: i64| 0 <= s && y == #[trigger] utc_year_of(s)
}

/// Calls `std::time::SystemTime::now()` and `duration_since(UNIX_EPOCH)` on
/// it, and gives the whole seconds of that duration; `None` when the system
/// time lies before the epoch. Nothing is claimed of the value: it depends on
/// the time of the call.
#[verifier::external_body]
fn seconds_since_epoch() -> (r: Option<u64>) {
    std::time::SystemTime::now().duration_since(std::time::UNIX_EPOCH).ok().map(|d| d.as_secs())
}

/// Calls `chrono::DateTime::from_timestamp(secs, 0)` and `Datelike::year` on
/// the date it gives. Per chrono's source, the date exists for every number of
/// seconds from 0 to `LATEST_SECONDS` (`None` is given only out of chrono's
/// range), and its year lies in chrono's range.
#[verifier::external_body]
fn year_at_seconds(secs: i64) -> (r: Option<i32>)
    ensures
        0 <= secs <= LATEST_SECONDS ==> r is Some,
        r matches Some(y) ==> y == utc_year_of(secs) && CHRONO_MIN_YEAR <= y <= CHRONO_MAX_YEAR,
{
    chrono::DateTime::from_timestamp(secs, 0).map(|d| d.year())
}

/// The year, in UTC, of the instant `secs` seconds after the Unix epoch:
/// `OutOfRange` when the seconds do not fit an `i64` or chrono holds no date
/// for them (never up to `LATEST_SECONDS`).
pub fn year_of_seconds(secs: u64) -> (r: Result<i32, ClockError>)
    ensures
        secs <= LATEST_SECONDS ==> r == Ok::<i32, ClockError>(utc_year_of(secs as i64)),
        secs > 0x7fff_ffff_ffff_ffff ==> r == Err::<i32, ClockError>(ClockError::OutOfRange),
        r matches Ok(y) ==> secs <= 0x7fff_ffff_ffff_ffff && y == utc_year_of(secs as i64)
            && CHRONO_MIN_YEAR <= y <= CHRONO_MAX_YEAR,
        r matches Err(e) ==> e == ClockError::OutOfRange,
{
    if secs > 0x7fff_ffff_ffff_ffffu64 {
        Err(ClockError::OutOfRange)
    } else {
        let s: i64 = secs as i64;
        match year_at_seconds(s) {
            Some(y) => Ok(y),
            None => Err(ClockError::OutOfRange),
        }
    }
}

/// The current year in UTC: the year of the current system time (see
/// `year_of_seconds`); `BeforeEpoch` when the system time lies before the
/// Unix epoch.
pub fn this_year() -> (r: Result<i32, ClockError>)
    ensures
        r matches Ok(y) ==> clock_year(y),
{
    match seconds_since_epoch() {
        None => Err(ClockError::BeforeEpoch),
        Some(s) => year_of_seconds(s),
    }
}

/// The model-year ceiling for a reading of the clock: the year after the
/// year read, or the clock's error unchanged.
pub fn ceiling_from(year: Result<i32, ClockError>) -> (r: Result<i32, ClockError>)
    requires
        year matches Ok(y) ==> y < i32::MAX,
    ensures
        r == match year {
            Ok(y) => Ok::<i32, ClockError>((y + 1) as i32),
            Err(e) => Err::<i32, ClockError>(e),
        },
{
    match year {
        Ok(y) => Ok(y + 1),
        Err(e) => Err(e),
    }
}

/// The latest model year that a descriptor record may carry: the year after
/// the current one (see `ceiling_from`); the clock's error when it cannot be
/// read.
pub fn model_year_ceiling() -> (r: Result<i32, ClockError>)
    ensures
        r matches Ok(c) ==> clock_year((c - 1) as i32),
{
    ceiling_from(this_year())
}

} // verus!
