//! Points in time and spans of time.
//!
//! A [`Timestamp`] is an instant together with the offset of the local zone
//! at that instant, so that the local date and the local clock time can be
//! read off it. A [`Duration`] is a signed count of nanoseconds. What the
//! calendar, the clock and the zone rules have to say is asked of `chrono`;
//! the arithmetic between instants is done here.
use vstd::prelude::*;
use chrono::TimeZone;
use chrono::Timelike;

verus! {

/// An instant with the local offset that holds at it.
#[derive(Clone, Copy, Debug, PartialEq, Eq, Structural)]
pub struct Timestamp {
    /// Whole seconds since 1970-01-01 00:00:00 UTC.
    pub secs: i64,
    /// Nanoseconds since the last whole second.
    pub nanos: u32,
    /// Seconds to add to UTC to get the local time.
    pub offset: i32,
}

/// A signed span of time, in nanoseconds.
#[derive(Clone, Copy, Debug, PartialEq, Eq, Structural)]
pub struct Duration {
    pub nanos: i128,
}

/// Whether the three numbers make a timestamp: the fraction stays below a
/// second (no leap second is represented) and the offset below a day.
pub open spec fn timestamp_parts_valid(secs: int, nanos: int, offset: int) -> bool {
    &&& i64::MIN <= secs <= i64::MAX
    &&& 0 <= nanos < 1_000_000_000
    &&& -86_400 < offset < 86_400
}

impl Timestamp {
    /// Whether the parts are valid.
    pub open spec fn wf(&self) -> bool {
        timestamp_parts_valid(self.secs as int, self.nanos as int, self.offset as int)
    }

    /// Nanoseconds since the epoch.
    pub open spec fn instant(&self) -> int {
        self.secs * 1_000_000_000 + self.nanos
    }

    /// Seconds since the epoch on the local clock.
    pub open spec fn local_seconds(&self) -> int {
        self.secs + self.offset
    }

    /// Local date, in days since 1970-01-01.
    pub open spec fn local_day(&self) -> int {
        self.local_seconds() / 86_400
    }

    /// Local clock time, in seconds since midnight.
    pub open spec fn local_second_of_day(&self) -> int {
        self.local_seconds() % 86_400
    }

    /// The timestamp whose local clock shows `second_of_day` on `day`, under `offset`.
    pub open spec fn of_local(day: int, second_of_day: int, nanos: int, offset: int) -> Option<
        Timestamp,
    > {
        let secs = day * 86_400 + second_of_day - offset;
        if timestamp_parts_valid(secs, nanos, offset) {
            Some(Timestamp { secs: secs as i64, nanos: nanos as u32, offset: offset as i32 })
        } else {
            None
        }
    }

    /// A timestamp from its parts, if they are valid.
    pub fn new(secs: i64, nanos: u32, offset: i32) -> (t: Option<Timestamp>)
        ensures
            t == if timestamp_parts_valid(secs as int, nanos as int, offset as int) {
                Some(Timestamp { secs, nanos, offset })
            } else {
                None
            },
    {
        if nanos < 1_000_000_000 && -86_400 < offset && offset < 86_400 {
            Some(Timestamp { secs, nanos, offset })
        } else {
            None
        }
    }

    /// The local date, in days since 1970-01-01.
    pub fn day_of(&self) -> (day: i64)
        ensures
            day == self.local_day(),
    {
        let local: i128 = self.secs as i128 + self.offset as i128;
        let day: i128 = floor_div_day(local);
        day as i64
    }

    /// The local clock time, in seconds since midnight.
    pub fn second_of_day(&self) -> (second: u32)
        ensures
            second == self.local_second_of_day(),
            second < 86_400,
    {
        let local: i128 = self.secs as i128 + self.offset as i128;
        let day: i128 = floor_div_day(local);
        (local - day * 86_400) as u32
    }

    /// The span from `earlier` to `self`; negative if `self` comes first.
    pub fn since(&self, earlier: &Timestamp) -> (d: Duration)
        ensures
            d.nanos == self.instant() - earlier.instant(),
    {
        let to: i128 = self.secs as i128 * 1_000_000_000 + self.nanos as i128;
        let from: i128 = earlier.secs as i128 * 1_000_000_000 + earlier.nanos as i128;
        Duration { nanos: to - from }
    }

    /// The timestamp of the given local date and clock time under `offset`.
    pub fn from_local(day: i64, second_of_day: u32, nanos: u32, offset: i32) -> (t: Option<
        Timestamp,
    >)
        ensures
            t == Timestamp::of_local(day as int, second_of_day as int, nanos as int, offset as int),
    {
        let secs: i128 = day as i128 * 86_400 + second_of_day as i128 - offset as i128;
        if secs < i64::MIN as i128 || secs > i64::MAX as i128 {
            return None;
        }
        Timestamp::new(secs as i64, nanos, offset)
    }
}

/// Floor of `local / 86400`.
fn floor_div_day(local: i128) -> (day: i128)
    requires
        -0x1_0000_0000_0000_0000_0000 < local < 0x1_0000_0000_0000_0000_0000,
    ensures
        day == local as int / 86_400,
        0 <= local - day * 86_400 < 86_400,
{
    if local >= 0 {
        local / 86_400
    } else {
        let up: i128 = -local + 86_399;
        let q: i128 = up / 86_400;
        assert(-q == local as int / 86_400) by (nonlinear_arith)
            requires
                local < 0,
                up == -local + 86_399,
                q == up as int / 86_400,
        ;
        -q
    }
}

impl Duration {
    /// Whole seconds, rounded towards zero.
    pub open spec fn seconds(&self) -> int {
        if self.nanos >= 0 {
            self.nanos as int / 1_000_000_000
        } else {
            -((-self.nanos) as int / 1_000_000_000)
        }
    }

    /// Whole minutes, rounded towards zero.
    pub open spec fn minutes(&self) -> int {
        if self.nanos >= 0 {
            self.nanos as int / 60_000_000_000
        } else {
            -((-self.nanos) as int / 60_000_000_000)
        }
    }

    /// No time at all.
    pub fn zero() -> (d: Duration)
        ensures
            d.nanos == 0,
    {
        Duration { nanos: 0 }
    }

    /// A span of whole seconds.
    pub fn from_seconds(seconds: i64) -> (d: Duration)
        ensures
            d.nanos == seconds * 1_000_000_000,
            d.seconds() == seconds,
    {
        let d = Duration { nanos: seconds as i128 * 1_000_000_000 };
        assert(d.seconds() == seconds) by (nonlinear_arith)
            requires
                d.nanos == seconds * 1_000_000_000,
                d.seconds() == if d.nanos >= 0 {
                    d.nanos as int / 1_000_000_000
                } else {
                    -((-d.nanos) as int / 1_000_000_000)
                },
        ;
        d
    }

    /// A span of whole hours.
    pub fn from_hours(hours: i32) -> (d: Duration)
        ensures
            d.nanos == hours * 3_600_000_000_000,
    {
        Duration { nanos: hours as i128 * 3_600_000_000_000 }
    }

    /// Whole seconds, rounded towards zero.
    pub fn num_seconds(&self) -> (s: i128)
        ensures
            s == self.seconds(),
    {
        if self.nanos >= 0 {
            self.nanos / 1_000_000_000
        } else if self.nanos == i128::MIN {
            -170_141_183_460_469_231_731_687_303_715i128
        } else {
            -((-self.nanos) / 1_000_000_000)
        }
    }

    /// Whole minutes, rounded towards zero.
    pub fn num_minutes(&self) -> (m: i128)
        ensures
            m == self.minutes(),
    {
        if self.nanos >= 0 {
            self.nanos / 60_000_000_000
        } else if self.nanos == i128::MIN {
            -2_835_686_391_007_820_528_861_455_061i128
        } else {
            -((-self.nanos) / 60_000_000_000)
        }
    }

    /// The sum, unless it leaves the range of a duration.
    pub fn checked_add(&self, other: &Duration) -> (sum: Option<Duration>)
        ensures
            sum == duration_sum(Some(*self), *other),
    {
        match self.nanos.checked_add(other.nanos) {
            Some(nanos) => Some(Duration { nanos }),
            None => None,
        }
    }
}

/// Adds `d` to a running total that may already have left the range.
pub open spec fn duration_sum(total: Option<Duration>, d: Duration) -> Option<Duration> {
    match total {
        Some(t) => if i128::MIN <= t.nanos + d.nanos <= i128::MAX {
            Some(Duration { nanos: (t.nanos + d.nanos) as i128 })
        } else {
            None
        },
        None => None,
    }
}

/// The epoch day that `chrono` reads from a calendar date written as `YYYY-MM-DD`.
pub uninterp spec fn date_text_epoch_day(text: Seq<char>) -> Option<int>;

/// The second of the day and the nanosecond that `chrono` reads from a clock
/// time written as `HH:MM:SS`.
pub uninterp spec fn time_text_parts(text: Seq<char>) -> Option<(int, int)>;

/// The second and nanosecond since the epoch that `chrono` reads from a date
/// and time with offset.
pub uninterp spec fn timestamp_text_instant(text: Seq<char>) -> Option<(int, int)>;

/// The first day that `chrono` has a date for, in days since 1970-01-01:
/// the first of January of the year -262143.
pub const FIRST_DAY: i64 = -96_465_292;

/// The last day that `chrono` has a date for, in days since 1970-01-01:
/// the last of December of the year 262142.
pub const LAST_DAY: i64 = 95_026_236;

/// Whether `chrono` has a date and time for the instant: its day is one
/// that `chrono` has a date for, and its nanosecond stays below a second,
/// or below two in the last second of a minute, where it stands for a leap
/// second.
pub open spec fn instant_in_range(secs: int, nanos: int) -> bool {
    &&& FIRST_DAY <= secs / 86_400 <= LAST_DAY
    &&& 0 <= nanos
    &&& nanos < 1_000_000_000 || (nanos < 2_000_000_000 && secs % 60 == 59)
}

/// A timestamp as `chrono` writes it after a pattern.
pub uninterp spec fn pattern_text(secs: int, nanos: int, offset: int, pattern: Seq<char>)
    -> Option<Seq<char>>;

/// A timestamp as `chrono` writes it in RFC 3339.
pub uninterp spec fn rfc3339_text(secs: int, nanos: int, offset: int) -> Option<Seq<char>>;

/// Reads the clock.
///
/// Calls `chrono::Local::now` and takes the result apart with
/// `DateTime::timestamp`, `DateTime::timestamp_subsec_nanos` and
/// `FixedOffset::local_minus_utc`. The clock never reports a leap second, and
/// an offset stays below a day. The call panics where the system clock stands
/// before 1970.
#[verifier::external_body]
pub(crate) fn read_clock() -> (parts: (i64, u32, i32))
    ensures
        timestamp_parts_valid(parts.0 as int, parts.1 as int, parts.2 as int),
{
    let now = chrono::Local::now();
    (now.timestamp(), now.timestamp_subsec_nanos(), now.offset().local_minus_utc())
}

/// Reads a calendar date.
///
/// Calls `chrono::NaiveDate::parse_from_str` with the format `%F` and gives
/// the date as `NaiveDate::to_epoch_days` counts it.
#[verifier::external_body]
pub(crate) fn parse_date(text: &str) -> (day: Option<i32>)
    ensures
        match day {
            Some(d) => date_text_epoch_day(text@) == Some(d as int),
            None => date_text_epoch_day(text@) is None,
        },
{
    chrono::NaiveDate::parse_from_str(text, "%F").ok().map(|date| date.to_epoch_days())
}

/// Reads a clock time.
///
/// Calls `chrono::NaiveTime::parse_from_str` with the format `%X` and gives
/// the time as `Timelike::num_seconds_from_midnight` and
/// `Timelike::nanosecond` count it.
#[verifier::external_body]
pub(crate) fn parse_time(text: &str) -> (parts: Option<(u32, u32)>)
    ensures
        match parts {
            Some(p) => time_text_parts(text@) == Some((p.0 as int, p.1 as int)),
            None => time_text_parts(text@) is None,
        },
{
    chrono::NaiveTime::parse_from_str(text, "%X").ok().map(
        |time| (time.num_seconds_from_midnight(), time.nanosecond()),
    )
}

/// Reads a date and time with offset.
///
/// Calls `str::parse` for `chrono::DateTime<chrono::FixedOffset>` and gives
/// the instant as `DateTime::timestamp` and `DateTime::timestamp_subsec_nanos`
/// count it.
#[verifier::external_body]
pub(crate) fn parse_instant(text: &str) -> (parts: Option<(i64, u32)>)
    ensures
        match parts {
            Some(p) => timestamp_text_instant(text@) == Some((p.0 as int, p.1 as int)),
            None => timestamp_text_instant(text@) is None,
        },
{
    text.parse::<chrono::DateTime<chrono::FixedOffset>>().ok().map(
        |at| (at.timestamp(), at.timestamp_subsec_nanos()),
    )
}

/// The offset of the local zone at an instant.
///
/// Calls `chrono::TimeZone::timestamp_opt` on `chrono::Local`. That gives a
/// single result where `chrono::DateTime::from_timestamp` has a value for
/// the instant, and none where it has not: whether there is an offset
/// depends on the instant alone. `from_timestamp` has a value where the day
/// of the instant lies in the years from -262143 to 262142 and the
/// nanosecond is one of that second. Which offset it is depends on the zone
/// the machine is set to. An offset stays below a day.
#[verifier::external_body]
pub(crate) fn local_offset_at(secs: i64, nanos: u32) -> (offset: Option<i32>)
    ensures
        offset is Some <==> instant_in_range(secs as int, nanos as int),
        offset matches Some(o) ==> -86_400 < o < 86_400,
{
    chrono::Local.timestamp_opt(secs, nanos).single().map(|at| at.offset().local_minus_utc())
}

/// The offset under which the local clock shows the given date and time.
///
/// Calls `chrono::TimeZone::from_local_date` on `chrono::Local`, then
/// `and_time` and `single`. The answer depends on the zone the machine is set
/// to; it is `None` where the local time does not exist, exists twice, or
/// cannot be represented. An offset stays below a day.
#[verifier::external_body]
#[allow(deprecated)]
pub(crate) fn local_offset_of(day: i32, second_of_day: u32, nanos: u32) -> (offset: Option<i32>)
    ensures
        offset matches Some(o) ==> -86_400 < o < 86_400,
{
    let date = chrono::NaiveDate::from_epoch_days(day)?;
    let time = chrono::NaiveTime::from_num_seconds_from_midnight_opt(second_of_day, nanos)?;
    let at = chrono::Local.from_local_date(&date).and_time(time).single()?;
    Some(at.offset().local_minus_utc())
}

/// The pattern after which a calendar date is written: `YYYY-MM-DD`.
pub open spec fn date_pattern() -> Seq<char> {
    "%F"@
}

/// The pattern after which a clock time is written: `HH:MM:SS`.
pub open spec fn time_pattern() -> Seq<char> {
    "%X"@
}

/// Writes a timestamp after a pattern.
///
/// Calls `chrono::DateTime::format` on the timestamp rebuilt by
/// `FixedOffset::east_opt` and `TimeZone::timestamp_opt`, and `to_string` on
/// what it gives. That panics for a pattern that `chrono` does not know;
/// the two patterns admitted here are known to it.
#[verifier::external_body]
pub(crate) fn write_after(secs: i64, nanos: u32, offset: i32, pattern: &str) -> (text: Option<
    String,
>)
    requires
        pattern@ == date_pattern() || pattern@ == time_pattern(),
    ensures
        match text {
            Some(s) => pattern_text(secs as int, nanos as int, offset as int, pattern@) == Some(s@),
            None => pattern_text(secs as int, nanos as int, offset as int, pattern@) is None,
        },
{
    let at = chrono::FixedOffset::east_opt(offset)?.timestamp_opt(secs, nanos).single()?;
    Some(at.format(pattern).to_string())
}

/// Writes a timestamp in RFC 3339.
///
/// Calls `chrono::DateTime::to_rfc3339` on the timestamp rebuilt by
/// `FixedOffset::east_opt` and `TimeZone::timestamp_opt`.
#[verifier::external_body]
pub(crate) fn write_rfc3339(secs: i64, nanos: u32, offset: i32) -> (text: Option<String>)
    ensures
        match text {
            Some(s) => rfc3339_text(secs as int, nanos as int, offset as int) == Some(s@),
            None => rfc3339_text(secs as int, nanos as int, offset as int) is None,
        },
{
    let at = chrono::FixedOffset::east_opt(offset)?.timestamp_opt(secs, nanos).single()?;
    Some(at.to_rfc3339())
}

/// The local date that a staged text denotes, in days since 1970-01-01.
pub open spec fn date_of_text(text: Seq<char>) -> Option<int> {
    date_text_epoch_day(text)
}

/// The local clock time that a staged text denotes: second of the day and
/// nanosecond. A leap second is no clock time here.
pub open spec fn time_of_text(text: Seq<char>) -> Option<(int, int)> {
    match time_text_parts(text) {
        Some((second, nanos)) => if 0 <= second < 86_400 && 0 <= nanos < 1_000_000_000 {
            Some((second, nanos))
        } else {
            None
        },
        None => None,
    }
}

/// The instant that a text from the remote store denotes. A leap second is
/// no instant here.
pub open spec fn instant_of_text(text: Seq<char>) -> Option<(int, int)> {
    match timestamp_text_instant(text) {
        Some((secs, nanos)) => if 0 <= nanos < 1_000_000_000 {
            Some((secs, nanos))
        } else {
            None
        },
        None => None,
    }
}

/// The current time.
pub fn now() -> (t: Timestamp)
    ensures
        t.wf(),
{
    let (secs, nanos, offset) = read_clock();
    Timestamp { secs, nanos, offset }
}

/// Reads a calendar date written as `YYYY-MM-DD`.
pub fn parse_date_text(text: &str) -> (day: Option<i32>)
    ensures
        match day {
            Some(d) => date_of_text(text@) == Some(d as int),
            None => date_of_text(text@) is None,
        },
{
    parse_date(text)
}

/// Reads a clock time written as `HH:MM:SS`.
pub fn parse_time_text(text: &str) -> (time: Option<(u32, u32)>)
    ensures
        match time {
            Some(t) => time_of_text(text@) == Some((t.0 as int, t.1 as int)),
            None => time_of_text(text@) is None,
        },
{
    match parse_time(text) {
        Some((second, nanos)) => {
            if second < 86_400 && nanos < 1_000_000_000 {
                Some((second, nanos))
            } else {
                None
            }
        },
        None => None,
    }
}

/// Reads the instant of a date and time with offset, as the remote store sends it.
pub fn parse_instant_text(text: &str) -> (instant: Option<(i64, u32)>)
    ensures
        match instant {
            Some(p) => instant_of_text(text@) == Some((p.0 as int, p.1 as int)),
            None => instant_of_text(text@) is None,
        },
{
    match parse_instant(text) {
        Some((secs, nanos)) => {
            if nanos < 1_000_000_000 {
                Some((secs, nanos))
            } else {
                None
            }
        },
        None => None,
    }
}

/// What the local zone may answer for an instant: nothing, or a timestamp at
/// that very instant.
pub open spec fn is_local_reading(secs: int, nanos: int, t: Option<Timestamp>) -> bool {
    match t {
        Some(t) => t.wf() && t.secs == secs && t.nanos == nanos,
        None => true,
    }
}

/// What the local zone may answer for a local date and clock time: nothing,
/// or a timestamp that shows them.
pub open spec fn is_local_resolution(day: int, second_of_day: int, nanos: int, t: Option<Timestamp>)
    -> bool {
    match t {
        Some(t) => exists|offset: int|
            -86_400 < offset < 86_400 && Some(t) == #[trigger] Timestamp::of_local(
                day,
                second_of_day,
                nanos,
                offset,
            ),
        None => true,
    }
}

/// Whether there is a timestamp at the instant: its fraction stays below a
/// second, and its seconds lie in the years that can be represented.
pub open spec fn has_timestamp(secs: int, nanos: int) -> bool {
    0 <= nanos < 1_000_000_000 && instant_in_range(secs, nanos)
}

/// Whether the numbers are a date and a clock time that the local zone can
/// be asked for.
pub open spec fn is_clock_time(day: int, second_of_day: int, nanos: int) -> bool {
    &&& i32::MIN <= day <= i32::MAX
    &&& 0 <= second_of_day < 86_400
    &&& 0 <= nanos < 1_000_000_000
}

/// The timestamp at an instant, with the offset the local zone has there.
/// There is one exactly where the instant has a timestamp; its offset is
/// the one the local zone gives.
pub fn timestamp_at(secs: i64, nanos: u32) -> (t: Option<Timestamp>)
    ensures
        is_local_reading(secs as int, nanos as int, t),
        t is Some <==> has_timestamp(secs as int, nanos as int),
{
    if nanos >= 1_000_000_000 {
        return None;
    }
    match local_offset_at(secs, nanos) {
        Some(offset) => Timestamp::new(secs, nanos, offset),
        None => None,
    }
}

/// The timestamp at which the local clock shows `second_of_day` on `day`.
/// `None` for a time that is no clock time, or where the zone gives no answer.
pub fn timestamp_at_local(day: i64, second_of_day: u32, nanos: u32) -> (t: Option<Timestamp>)
    ensures
        is_local_resolution(day as int, second_of_day as int, nanos as int, t),
        !is_clock_time(day as int, second_of_day as int, nanos as int) ==> t is None,
{
    if second_of_day >= 86_400 || nanos >= 1_000_000_000 || day < i32::MIN as i64 || day
        > i32::MAX as i64 {
        return None;
    }
    match local_offset_of(day as i32, second_of_day, nanos) {
        Some(offset) => Timestamp::from_local(day, second_of_day, nanos, offset),
        None => None,
    }
}

/// The local calendar date of `t` as text, where it can be written.
pub open spec fn local_date_text(t: Timestamp) -> Option<Seq<char>> {
    pattern_text(t.secs as int, t.nanos as int, t.offset as int, date_pattern())
}

/// The local clock time of `t` as text, where it can be written.
pub open spec fn local_time_text(t: Timestamp) -> Option<Seq<char>> {
    pattern_text(t.secs as int, t.nanos as int, t.offset as int, time_pattern())
}

/// The local calendar date of `t` as text, where `chrono` can write it.
pub fn format_date(t: &Timestamp) -> (text: Option<String>)
    ensures
        match text {
            Some(s) => local_date_text(*t) == Some(s@),
            None => local_date_text(*t) is None,
        },
{
    write_after(t.secs, t.nanos, t.offset, "%F")
}

/// The local clock time of `t` as text, where `chrono` can write it.
pub fn format_time(t: &Timestamp) -> (text: Option<String>)
    ensures
        match text {
            Some(s) => local_time_text(*t) == Some(s@),
            None => local_time_text(*t) is None,
        },
{
    write_after(t.secs, t.nanos, t.offset, "%X")
}

/// `t` as the remote store expects it, where `chrono` can write it.
pub fn format_rfc3339(t: &Timestamp) -> (text: Option<String>)
    ensures
        match text {
            Some(s) => rfc3339_text(t.secs as int, t.nanos as int, t.offset as int) == Some(s@),
            None => rfc3339_text(t.secs as int, t.nanos as int, t.offset as int) is None,
        },
{
    write_rfc3339(t.secs, t.nanos, t.offset)
}

} // verus!
