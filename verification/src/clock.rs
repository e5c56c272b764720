//! Readings of the clocks of the machine.
use chrono::Timelike;
use vstd::prelude::*;

verus! {

#[verifier::external_type_specification]
#[verifier::external_body]
pub struct ExInstant(std::time::Instant);

/// A time of day in UTC.
#[derive(Debug, Clone, Copy, PartialEq, Eq, Structural)]
pub struct TimeOfDay {
    pub hour: u32,
    pub minute: u32,
    pub second: u32,
}

impl TimeOfDay {
    /// Whether the fields are in their ranges.
    pub open spec fn wf(self) -> bool {
        self.hour < 24 && self.minute < 60 && self.second < 60
    }

    /// Minutes since midnight.
    pub open spec fn minute_of_day(self) -> int {
        self.hour * 60 + self.minute
    }

    /// Seconds since midnight.
    pub open spec fn second_of_day(self) -> int {
        self.hour * 3600 + self.minute * 60 + self.second
    }
}

/// `chrono::Utc::now` with `DateTime::timestamp_millis`: milliseconds since the
/// Unix epoch, never negative, as `chrono` takes no clock that stands before it.
/// Which moment it is depends on the machine.
#[verifier::external_body]
pub(crate) fn utc_millis() -> (ms: i64)
    ensures
        ms >= 0,
{
    chrono::Utc::now().timestamp_millis()
}

/// `chrono::Utc::now` with `DateTime::timestamp_nanos_opt`: nanoseconds since the
/// Unix epoch, none where they do not fit, never negative, as `chrono` takes no clock
/// that stands before it. Which moment it is depends on the machine.
#[verifier::external_body]
fn utc_nanos() -> (ns: Option<i64>)
    ensures
        ns is Some ==> ns->Some_0 >= 0,
{
    chrono::Utc::now().timestamp_nanos_opt()
}

/// The current time in nanoseconds since the Unix epoch. A time too far off to be
/// counted so is taken as the last that can be.
pub fn now_nanos() -> (ns: i64)
    ensures
        ns >= 0,
{
    match utc_nanos() {
        Some(ns) => ns,
        None => i64::MAX,
    }
}

/// Whole milliseconds in nanoseconds since the Unix epoch, zero before it.
pub open spec fn millis_in(ns: int) -> int {
    if ns < 0 {
        0
    } else {
        ns / 1_000_000
    }
}

/// Whole milliseconds in nanoseconds since the Unix epoch, zero before it.
pub fn whole_millis(ns: i64) -> (ms: u64)
    ensures
        ms == millis_in(ns as int),
{
    if ns < 0 {
        0
    } else {
        ns as u64 / 1_000_000
    }
}

/// `chrono::Utc::now` with `DateTime::timestamp_micros`: microseconds since the
/// Unix epoch, never negative, as `chrono` takes no clock that stands before it.
/// Which moment it is depends on the machine.
#[verifier::external_body]
fn utc_micros() -> (us: i64)
    ensures
        us >= 0,
{
    chrono::Utc::now().timestamp_micros()
}

/// `chrono::Utc::now` with `Timelike::hour`, `minute` and `second`: the time of
/// day in UTC, each part in its range. Which moment it is depends on the machine.
#[verifier::external_body]
pub(crate) fn utc_time_of_day() -> (t: TimeOfDay)
    ensures
        t.wf(),
{
    let now = chrono::Utc::now();
    TimeOfDay { hour: now.hour(), minute: now.minute(), second: now.second() }
}

/// `std::time::Instant::elapsed`. How much time has passed depends on the
/// machine, so nothing is stated of it.
#[verifier::external_body]
fn elapsed(since: std::time::Instant) -> (d: std::time::Duration) {
    since.elapsed()
}

/// `std::time::Duration::as_millis`. What is inside a duration is not known here,
/// so nothing is stated of its milliseconds.
#[verifier::external_body]
fn millis_of(d: std::time::Duration) -> (ms: u128) {
    d.as_millis()
}

/// Whole milliseconds since an instant.
pub(crate) fn elapsed_millis(since: std::time::Instant) -> (ms: u128) {
    millis_of(elapsed(since))
}

/// Milliseconds since the Unix epoch.
pub(crate) fn epoch_millis() -> (ms: u64)
    ensures
        ms <= i64::MAX,
{
    utc_millis() as u64
}

/// Microseconds since the Unix epoch.
pub(crate) fn epoch_micros() -> (us: u128) {
    utc_micros() as u128
}

/// What `chrono` writes of an epoch nanosecond under a pattern.
pub uninterp spec fn time_text(ns: i64, pattern: Seq<char>) -> Seq<char>;

/// `chrono::DateTime::from_timestamp_nanos` and `DateTime::format`: the text is a
/// function of the time and the pattern. Only patterns that `chrono` understands are
/// let in: on others the text cannot be made.
#[verifier::external_body]
fn format_time(ns: i64, pattern: &str) -> (s: String)
    requires
        pattern@ == "%Y-%m-%d %H:%M:%S UTC"@ || pattern@ == "%H:%M:%S"@,
    ensures
        s@ == time_text(ns, pattern@),
{
    let t = chrono::DateTime::from_timestamp_nanos(ns);
    t.format(pattern).to_string()
}

/// Date and time as the logs write them.
pub open spec fn log_time_text(ns: i64) -> Seq<char> {
    time_text(ns, "%Y-%m-%d %H:%M:%S UTC"@)
}

/// Date and time as the logs write them.
pub(crate) fn log_time(ns: i64) -> (s: String)
    ensures
        s@ == log_time_text(ns),
{
    format_time(ns, "%Y-%m-%d %H:%M:%S UTC")
}

/// The time of day.
pub open spec fn day_time_text(ns: i64) -> Seq<char> {
    time_text(ns, "%H:%M:%S"@)
}

/// The time of day.
pub(crate) fn day_time(ns: i64) -> (s: String)
    ensures
        s@ == day_time_text(ns),
{
    format_time(ns, "%H:%M:%S")
}

/// The date and time of an epoch nanosecond as `chrono` writes it in RFC 3339
/// form with a trailing `Z`.
pub uninterp spec fn iso_time_text(ns: i64) -> Seq<char>;

/// `chrono::DateTime::from_timestamp_nanos` and `DateTime::to_rfc3339_opts`
/// with fractions as needed and `Z` for UTC: the text is a function of the time.
#[verifier::external_body]
pub(crate) fn iso_time(ns: i64) -> (s: String)
    ensures
        s@ == iso_time_text(ns),
{
    let t = chrono::DateTime::from_timestamp_nanos(ns);
    t.to_rfc3339_opts(chrono::SecondsFormat::AutoSi, true)
}

/// Whole seconds from `earlier` to `later`, both in nanoseconds, the fraction
/// dropped.
pub open spec fn seconds_between(earlier: int, later: int) -> int {
    if later >= earlier {
        (later - earlier) / 1_000_000_000
    } else {
        -((earlier - later) / 1_000_000_000)
    }
}

/// Whole seconds from `earlier` to `later`, both in nanoseconds.
pub fn whole_seconds(earlier: i64, later: i64) -> (secs: i64)
    ensures
        secs == seconds_between(earlier as int, later as int),
{
    if later >= earlier {
        ((later as i128 - earlier as i128) as u128 / 1_000_000_000) as i64
    } else {
        -(((earlier as i128 - later as i128) as u128 / 1_000_000_000) as i64)
    }
}

} // verus!
