//! Phrasing of durations and of points in time relative to now
//! ("3 days ago", "in an hour", "just now").

use std::time::{Duration, SystemTime, SystemTimeError, UNIX_EPOCH};

use vstd::prelude::*;
use vstd::string::*;

use crate::text::{decimal, decimal_string};

verus! {

/// Seconds in a minute.
pub const MINUTE: u64 = 60;

/// Seconds in an hour.
pub const HOUR: u64 = 3600;

/// Seconds in a day.
pub const DAY: u64 = 86400;

/// Seconds in a week.
pub const WEEK: u64 = 604800;

/// Seconds in a month, counted as thirty days.
pub const MONTH: u64 = 2592000;

/// Seconds in a year, counted as 365 days.
pub const YEAR: u64 = 31536000;

/// Something that can be described in words relative to the present.
pub trait Humanize {
    fn humanize(&self) -> String;
}

/// A span of time in the largest unit that describes it.
pub enum TimePeriod {
    Now,
    Seconds(i64),
    Minutes(i64),
    Hours(i64),
    Days(i64),
    Weeks(i64),
    Months(i64),
    Years(i64),
    Eternity,
}

/// A count followed by a unit name: `"<count><unit>"`.
pub open spec fn counted(count: nat, unit: Seq<char>) -> Seq<char> {
    decimal(count) + unit
}

/// The words for a span of `secs` seconds.  Each unit is named for spans
/// of more than twice its length as a whole count, and as "a <unit>" for
/// spans of more than one and at most two of it; ten seconds or less is
/// "just now".
pub open spec fn duration_phrase(secs: nat) -> Seq<char> {
    if secs > 2 * YEAR {
        counted(secs / (YEAR as nat), " years"@)
    } else if secs > YEAR {
        "a year"@
    } else if secs > 2 * MONTH {
        counted(secs / (MONTH as nat), " months"@)
    } else if secs > MONTH {
        "a month"@
    } else if secs > 2 * WEEK {
        counted(secs / (WEEK as nat), " weeks"@)
    } else if secs > WEEK {
        "a week"@
    } else if secs > 2 * DAY {
        counted(secs / (DAY as nat), " days"@)
    } else if secs > DAY {
        "a day"@
    } else if secs > 2 * HOUR {
        counted(secs / (HOUR as nat), " hours"@)
    } else if secs > HOUR {
        "an hour"@
    } else if secs > 2 * MINUTE {
        counted(secs / (MINUTE as nat), " minutes"@)
    } else if secs > MINUTE {
        "a minute"@
    } else if secs > 10 {
        counted(secs, " seconds"@)
    } else {
        "just now"@
    }
}

/// The words for the instant `target` (seconds since the epoch) seen at
/// the instant `now`: within ten seconds either way it is "just now",
/// before that "<span> ago", after it "in <span>".
pub open spec fn relative_phrase(target: int, now: int) -> Seq<char> {
    let elapsed = target - now;
    if -10 <= elapsed && elapsed <= 10 {
        "just now"@
    } else if elapsed < 0 {
        duration_phrase((-elapsed) as nat) + " ago"@
    } else {
        "in "@ + duration_phrase(elapsed as nat)
    }
}

/// Whether `phrase` is a whole count `c` of a unit of `unit_secs` seconds,
/// written as `"<c><unit>"`, with `c` whole units within one unit of
/// `secs`: `c * unit_secs <= secs < (c + 1) * unit_secs`.
pub open spec fn counts_whole_units(phrase: Seq<char>, secs: nat, unit_secs: nat, unit: Seq<char>) -> bool {
    exists|c: nat|
        phrase == #[trigger] decimal(c) + unit && c * unit_secs <= secs && secs < (c + 1)
            * unit_secs
}

proof fn lemma_counts_whole_units(secs: nat, unit_secs: nat, unit: Seq<char>)
    requires
        unit_secs > 0,
    ensures
        counts_whole_units(decimal(secs / unit_secs) + unit, secs, unit_secs, unit),
{
    let c = secs / unit_secs;
    assert(c * unit_secs <= secs && secs < (c + 1) * unit_secs) by (nonlinear_arith)
        requires
            unit_secs > 0,
            c == secs / unit_secs,
    ;
    assert(decimal(c) + unit == decimal(c) + unit);
}

/// The words for a span name, in the largest unit that the span exceeds
/// twice, the whole number of those units that the span holds; between one
/// and two of a unit they are "a <unit>", up to a minute the exact count of
/// seconds, and ten seconds or less is "just now".  (Units: a minute of 60
/// seconds, an hour of 3600, a day of 86400, a week of 604800, a month of
/// 2592000, a year of 31536000.)
pub proof fn lemma_duration_phrase_units(secs: nat)
    ensures
        secs > 63072000 ==> counts_whole_units(duration_phrase(secs), secs, 31536000, " years"@),
        31536000 < secs <= 63072000 ==> duration_phrase(secs) == "a year"@,
        5184000 < secs <= 31536000 ==> counts_whole_units(
            duration_phrase(secs),
            secs,
            2592000,
            " months"@,
        ),
        2592000 < secs <= 5184000 ==> duration_phrase(secs) == "a month"@,
        1209600 < secs <= 2592000 ==> counts_whole_units(
            duration_phrase(secs),
            secs,
            604800,
            " weeks"@,
        ),
        604800 < secs <= 1209600 ==> duration_phrase(secs) == "a week"@,
        172800 < secs <= 604800 ==> counts_whole_units(duration_phrase(secs), secs, 86400, " days"@),
        86400 < secs <= 172800 ==> duration_phrase(secs) == "a day"@,
        7200 < secs <= 86400 ==> counts_whole_units(duration_phrase(secs), secs, 3600, " hours"@),
        3600 < secs <= 7200 ==> duration_phrase(secs) == "an hour"@,
        120 < secs <= 3600 ==> counts_whole_units(duration_phrase(secs), secs, 60, " minutes"@),
        60 < secs <= 120 ==> duration_phrase(secs) == "a minute"@,
        10 < secs <= 60 ==> duration_phrase(secs) == decimal(secs) + " seconds"@,
        secs <= 10 ==> duration_phrase(secs) == "just now"@,
{
    lemma_counts_whole_units(secs, 31536000, " years"@);
    lemma_counts_whole_units(secs, 2592000, " months"@);
    lemma_counts_whole_units(secs, 604800, " weeks"@);
    lemma_counts_whole_units(secs, 86400, " days"@);
    lemma_counts_whole_units(secs, 3600, " hours"@);
    lemma_counts_whole_units(secs, 60, " minutes"@);
}

/// An instant seen at itself is "just now".
pub proof fn lemma_relative_same_instant(t: int)
    ensures
        relative_phrase(t, t) == "just now"@,
{
}

/// An instant more than ten seconds before now is the words for the span
/// between them followed by " ago".
pub proof fn lemma_relative_past(now: int, span: nat)
    requires
        span > 10,
    ensures
        relative_phrase(now - span, now) == duration_phrase(span) + " ago"@,
{
}

/// An instant more than ten seconds after now is "in " followed by the
/// words for the span between them.
pub proof fn lemma_relative_future(now: int, span: nat)
    requires
        span > 10,
    ensures
        relative_phrase(now + span, now) == "in "@ + duration_phrase(span),
{
}

fn counted_string(count: u64, unit: &str) -> (r: String)
    ensures
        r@ == counted(count as nat, unit@),
{
    let mut s = decimal_string(count);
    s.append(unit);
    s
}

/// The words for a span of `secs` seconds (see `duration_phrase`).
pub fn humanize_seconds(secs: u64) -> (r: String)
    ensures
        r@ == duration_phrase(secs as nat),
{
    if secs > 2 * YEAR {
        counted_string(secs / YEAR, " years")
    } else if secs > YEAR {
        String::from_str("a year")
    } else if secs > 2 * MONTH {
        counted_string(secs / MONTH, " months")
    } else if secs > MONTH {
        String::from_str("a month")
    } else if secs > 2 * WEEK {
        counted_string(secs / WEEK, " weeks")
    } else if secs > WEEK {
        String::from_str("a week")
    } else if secs > 2 * DAY {
        counted_string(secs / DAY, " days")
    } else if secs > DAY {
        String::from_str("a day")
    } else if secs > 2 * HOUR {
        counted_string(secs / HOUR, " hours")
    } else if secs > HOUR {
        String::from_str("an hour")
    } else if secs > 2 * MINUTE {
        counted_string(secs / MINUTE, " minutes")
    } else if secs > MINUTE {
        String::from_str("a minute")
    } else if secs > 10 {
        counted_string(secs, " seconds")
    } else {
        String::from_str("just now")
    }
}

/// The words for the instant `target` seen at the instant `now`, both in
/// seconds since the epoch (see `relative_phrase`).
pub fn humanize_relative(target: i64, now: i64) -> (r: String)
    ensures
        r@ == relative_phrase(target as int, now as int),
{
    let elapsed: i128 = target as i128 - now as i128;
    if -10 <= elapsed && elapsed <= 10 {
        String::from_str("just now")
    } else if elapsed < 0 {
        let span: u64 = (0 - elapsed) as u64;
        let mut s = humanize_seconds(span);
        s.append(" ago");
        s
    } else {
        let span: u64 = elapsed as u64;
        let mut s = String::from_str("in ");
        let words = humanize_seconds(span);
        s.append(words.as_str());
        s
    }
}


/// The message when the system clock reads before the epoch.
pub open spec fn clock_error_message() -> Seq<char> {
    "Time went backwards"@
}

/// The current time from a reading of the system clock: `Some(s)` when it
/// read `s` whole seconds after the epoch, `None` when it read before the
/// epoch.  A reading after the epoch is converted as `as i64` converts; one
/// before it is an error.
pub fn epoch_seconds(reading: Option<u64>) -> (r: Result<i64, String>)
    ensures
        match reading {
            Some(s) => r == Ok::<i64, String>(s as i64),
            None => r matches Err(m) && m@ == clock_error_message(),
        },
{
    match reading {
        Some(s) => Ok(s as i64),
        None => Err(String::from_str("Time went backwards")),
    }
}

/// `std::time::SystemTime`, carried through opaquely.
#[verifier::external_type_specification]
#[verifier::external_body]
pub struct ExSystemTime(SystemTime);

/// `std::time::SystemTimeError`, carried through opaquely.
#[verifier::external_type_specification]
#[verifier::external_body]
pub struct ExSystemTimeError(SystemTimeError);

/// `SystemTime::now`: the current reading of the system clock.  Nothing is
/// stated of it.
#[verifier::external_body]
fn system_time_now() -> SystemTime {
    SystemTime::now()
}

/// `SystemTime::duration_since` with `UNIX_EPOCH` as the earlier time:
/// the span from the epoch to `t`, or an error when `t` lies before the
/// epoch.  Nothing is stated of the outcome.
#[verifier::external_body]
fn since_epoch(t: &SystemTime) -> Result<Duration, SystemTimeError> {
    t.duration_since(UNIX_EPOCH)
}

/// The whole seconds of a span, as `Duration::as_secs` gives them.
pub uninterp spec fn duration_secs(d: Duration) -> u64;

/// `Duration::as_secs`: the whole seconds of a span.  Stated: the result is
/// a function of the span alone (named `duration_secs`).
#[verifier::external_body]
fn whole_seconds(d: &Duration) -> (r: u64)
    ensures
        r == duration_secs(*d),
{
    d.as_secs()
}

/// The current time in whole seconds since the epoch, read from the system
/// clock (see `epoch_seconds`): a number of seconds that the clock can read,
/// or an error when the clock reads before the epoch.
pub fn get_current_time() -> (r: Result<i64, String>)
    ensures
        match r {
            Ok(t) => exists|d: Duration| t == duration_secs(d) as i64,
            Err(m) => m@ == clock_error_message(),
        },
{
    let now = system_time_now();
    match since_epoch(&now) {
        Ok(d) => {
            let r = epoch_seconds(Some(whole_seconds(&d)));
            assert(r matches Ok(t) && t == duration_secs(d) as i64);
            r
        },
        Err(_) => epoch_seconds(None),
    }
}

/// The words for `target` seen from a reading of the clock: the words for
/// the instant when the clock gave a time, else the clock's error message.
pub fn humanize_at(target: i64, now: Result<i64, String>) -> (r: String)
    ensures
        match now {
            Ok(n) => r@ == relative_phrase(target as int, n as int),
            Err(m) => r@ == m@,
        },
{
    match now {
        Ok(n) => humanize_relative(target, n),
        Err(m) => m,
    }
}

impl Humanize for Duration {
    /// The words for the whole seconds of this span (see `duration_phrase`).
    fn humanize(&self) -> (r: String)
        ensures
            r@ == duration_phrase(duration_secs(*self) as nat),
    {
        humanize_seconds(whole_seconds(self))
    }
}

impl Humanize for i64 {
    /// The words for this instant (seconds since the epoch) seen from the
    /// current time (see `relative_phrase`), or the clock's error message
    /// when the clock reads before the epoch.
    fn humanize(&self) -> (r: String)
        ensures
            (exists|now: i64| r@ == relative_phrase(*self as int, now as int)) || r@
                == clock_error_message(),
    {
        let now = get_current_time();
        humanize_at(*self, now)
    }
}

/// `git2::Time`, the time of a signature, carried through opaquely.
#[verifier::external_type_specification]
#[verifier::external_body]
pub struct ExGitTime(git2::Time);

/// The instant of a signature in seconds since the epoch, as
/// `git2::Time::seconds` gives it.
pub uninterp spec fn git_seconds(t: git2::Time) -> i64;

/// `git2::Time::seconds`: the instant of a signature in seconds since the
/// epoch.  Stated: the result is a function of the time alone (named
/// `git_seconds`).
#[verifier::external_body]
fn git_time_seconds(t: &git2::Time) -> (r: i64)
    ensures
        r == git_seconds(*t),
{
    t.seconds()
}

impl Humanize for git2::Time {
    /// The words for this signature time seen from the current time, or the
    /// clock's error message when the clock reads before the epoch.
    fn humanize(&self) -> (r: String)
        ensures
            (exists|now: i64| r@ == relative_phrase(git_seconds(*self) as int, now as int)) || r@
                == clock_error_message(),
    {
        git_time_seconds(self).humanize()
    }
}

/// The `target` argument handed to the template function that humanizes
/// a time: an integer, or any other value given by its JSON text.
pub enum TimeTarget {
    Integer(i64),
    Other(String),
}

/// The message when no `target` argument was given.
pub open spec fn missing_target_message() -> Seq<char> {
    "No target time given."@
}

/// The message when the `target` argument, whose JSON text is `text`, is
/// not an integer.
pub open spec fn bad_target_message(text: Seq<char>) -> Seq<char> {
    "`target` must be a i64, got "@ + text + " instead."@
}

/// The template function that humanizes a time, given its `target`
/// argument (if any) and the reading of the clock: the words for the target
/// instant, or a message saying why there are none.
pub fn humanize_target(target: Option<TimeTarget>, now: Result<i64, String>) -> (r: Result<
    String,
    String,
>)
    ensures
        match target {
            None => r matches Err(m) && m@ == missing_target_message(),
            Some(TimeTarget::Other(text)) => r matches Err(m) && m@ == bad_target_message(text@),
            Some(TimeTarget::Integer(t)) => match now {
                Ok(n) => r matches Ok(s) && s@ == relative_phrase(t as int, n as int),
                Err(e) => r matches Err(m) && m@ == e@,
            },
        },
{
    match target {
        None => Err(String::from_str("No target time given.")),
        Some(TimeTarget::Other(text)) => {
            let mut m = String::from_str("`target` must be a i64, got ");
            m.append(text.as_str());
            m.append(" instead.");
            Err(m)
        },
        Some(TimeTarget::Integer(t)) => match now {
            Ok(n) => Ok(humanize_relative(t, n)),
            Err(e) => Err(e),
        },
    }
}

} // verus!
