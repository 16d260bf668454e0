//! Instants of time as plain integers, and the calendar work that is left to `chrono`.
//!
//! A [`Timestamp`] is a UTC instant together with the offset of the zone it was observed in.
//! Ordering, day arithmetic and elapsed time are computed here; turning an instant into text
//! or text into an instant is done by `chrono` behind the trusted functions of this module.

use vstd::prelude::*;

verus! {

/// Seconds in one civil day.
pub const DAY_SECS: i64 = 86_400;

/// Nanoseconds in one second.
pub const SECOND_NANOS: u32 = 1_000_000_000;

/// The first supported instant, 0001-01-01T00:00:00Z, in Unix seconds.
pub const MIN_SECS: i64 = -62_135_596_800;

/// The last supported second, 9999-12-31T23:59:59Z, in Unix seconds.
pub const MAX_SECS: i64 = 253_402_300_799;

/// Days between 0000-12-31 and 1970-01-01, so that shifted day counts are never negative.
const EPOCH_SHIFT_DAYS: i64 = 719_163;

/// `std::time::SystemTime`, carried from the clock to the reading of it.
#[verifier::external_type_specification]
#[verifier::external_body]
pub struct ExSystemTime(std::time::SystemTime);

/// `chrono::ParseError`, carried through and never inspected.
#[verifier::external_type_specification]
#[verifier::external_body]
pub struct ExParseError(chrono::ParseError);

/// An instant between the years 1 and 9999 with the UTC offset, in seconds, of its observer.
#[derive(Clone, Copy, Debug)]
pub struct Timestamp {
    secs: i64,
    nanos: u32,
    offset: i32,
}

/// Whether the three numbers describe a supported instant.
pub open spec fn in_range(secs: int, nanos: int, offset: int) -> bool {
    &&& MIN_SECS <= secs <= MAX_SECS
    &&& 0 <= nanos < SECOND_NANOS
    &&& -DAY_SECS < offset < DAY_SECS
}

/// The supported second nearest to a second.
pub open spec fn clamped_secs(secs: int) -> int {
    if secs < MIN_SECS {
        MIN_SECS as int
    } else if secs > MAX_SECS {
        MAX_SECS as int
    } else {
        secs
    }
}

/// The supported nanoseconds nearest to a number of nanoseconds past the second: those
/// of a leap second, which are counted from a billion on, become the last of the second.
pub open spec fn clamped_nanos(nanos: int) -> int {
    if nanos >= SECOND_NANOS {
        SECOND_NANOS - 1
    } else if nanos < 0 {
        0
    } else {
        nanos
    }
}

/// The supported offset nearest to an offset.
pub open spec fn clamped_offset(offset: int) -> int {
    if offset <= -DAY_SECS {
        1 - DAY_SECS
    } else if offset >= DAY_SECS {
        DAY_SECS - 1
    } else {
        offset
    }
}

/// The text `chrono` writes for the instant `(secs, nanos)` seen at `offset` under the
/// strftime pattern `fmt`.
pub uninterp spec fn formatted_time(secs: int, nanos: int, offset: int, fmt: Seq<char>) -> Seq<char>;

/// The RFC 3339 text `chrono` writes for the instant `(secs, nanos)` seen at `offset`.
pub uninterp spec fn rfc3339_text(secs: int, nanos: int, offset: int) -> Seq<char>;

/// What `chrono` reads from an RFC 3339 text: Unix seconds, nanoseconds and offset, if it
/// accepts the text at all.
pub uninterp spec fn rfc3339_reading(s: Seq<char>) -> Option<(int, int, int)>;

/// What `chrono` reads from a text under the pattern `%H:%M`: seconds since midnight, if it
/// accepts the text at all.
pub uninterp spec fn clock_time_reading(s: Seq<char>) -> Option<int>;

/// The strftime patterns this library hands to `chrono`; each is made of literal text and
/// the numeric fields `%Y %m %d %H %M %S` only.
pub open spec fn known_pattern(fmt: Seq<char>) -> bool {
    ||| fmt == "%Y%m%d-%H%M%S"@
    ||| fmt == "%Y-%m-%d"@
    ||| fmt == "%Y-%m-%d %H:%M:%S"@
    ||| fmt == "%H%M%S"@
    ||| fmt == "%H_%M"@
    ||| fmt == "%H:%M"@
}

impl Timestamp {
    #[verifier::type_invariant]
    spec fn inv(self) -> bool {
        in_range(self.secs as int, self.nanos as int, self.offset as int)
    }

    /// Whole seconds since the Unix epoch.
    pub closed spec fn secs(self) -> int {
        self.secs as int
    }

    /// Nanoseconds past the whole second.
    pub closed spec fn nanos(self) -> int {
        self.nanos as int
    }

    /// Seconds to add to UTC to get the observer's wall clock.
    pub closed spec fn offset(self) -> int {
        self.offset as int
    }

    /// Validity as a specification; every executable value satisfies it.
    pub open spec fn wf(self) -> bool {
        in_range(self.secs(), self.nanos(), self.offset())
    }

    /// Nanoseconds since the Unix epoch: the quantity by which instants are ordered.
    pub open spec fn instant(self) -> int {
        self.secs() * 1_000_000_000 + self.nanos()
    }

    /// The observer's civil day, counted from the Unix epoch.
    pub open spec fn local_day(self) -> int {
        (self.secs() + self.offset()) / 86_400
    }

    /// Seconds since the observer's midnight.
    pub open spec fn local_second_of_day(self) -> int {
        (self.secs() + self.offset()) % 86_400
    }

    /// Every timestamp a program holds is well formed; a call of this function, which does
    /// nothing when run, makes that known where it stands.
    pub fn valid(&self)
        ensures
            self.wf(),
    {
        proof {
            use_type_invariant(self);
        }
    }

    /// Builds a timestamp, or `None` when a number is outside the supported range.
    pub fn new(secs: i64, nanos: u32, offset: i32) -> (r: Option<Timestamp>)
        ensures
            r is Some <==> in_range(secs as int, nanos as int, offset as int),
            r matches Some(t) ==> t.secs() == secs && t.nanos() == nanos && t.offset() == offset
                && t.wf(),
    {
        if MIN_SECS <= secs && secs <= MAX_SECS && nanos < SECOND_NANOS && -DAY_SECS < offset as i64
            && (offset as i64) < DAY_SECS {
            Some(Timestamp { secs, nanos, offset })
        } else {
            None
        }
    }

    /// Builds the supported timestamp nearest to the three numbers: each is clamped to its
    /// range.
    pub fn saturating(secs: i64, nanos: u32, offset: i32) -> (t: Timestamp)
        ensures
            t.wf(),
            t.secs() == clamped_secs(secs as int),
            t.nanos() == clamped_nanos(nanos as int),
            t.offset() == clamped_offset(offset as int),
    {
        let s: i64 = if secs < MIN_SECS {
            MIN_SECS
        } else if secs > MAX_SECS {
            MAX_SECS
        } else {
            secs
        };
        let n: u32 = if nanos >= SECOND_NANOS {
            SECOND_NANOS - 1
        } else {
            nanos
        };
        let o: i32 = if offset <= -86_400 {
            -86_399
        } else if offset >= 86_400 {
            86_399
        } else {
            offset
        };
        Timestamp { secs: s, nanos: n, offset: o }
    }

    /// The current instant in the local zone: the time since the Unix epoch by the system
    /// clock, with the offset that the local zone has at that time. A clock that stands
    /// before the epoch reads as the epoch, and one beyond the supported range as the last
    /// supported second; nothing else is known of the result.
    pub fn now() -> (t: Timestamp)
        ensures
            t.wf(),
            t.secs() >= 0,
    {
        let (secs, nanos) = epoch_reading();
        let within: i64 = if secs > 253_402_300_799u64 {
            MAX_SECS
        } else {
            secs as i64
        };
        let offset = local_offset_at(within, nanos);
        Timestamp::saturating(within, nanos, offset)
    }

    /// Whole seconds since the Unix epoch.
    pub fn unix_seconds(&self) -> (r: i64)
        ensures
            r == self.secs(),
    {
        self.secs
    }

    /// Nanoseconds past the whole second.
    pub fn subsec_nanos(&self) -> (r: u32)
        ensures
            r == self.nanos(),
    {
        self.nanos
    }

    /// Seconds to add to UTC to get the observer's wall clock.
    pub fn utc_offset(&self) -> (r: i32)
        ensures
            r == self.offset(),
    {
        self.offset
    }

    /// Whether this instant is strictly earlier than `other`.
    pub fn is_before(&self, other: &Timestamp) -> (r: bool)
        ensures
            r == (self.instant() < other.instant()),
    {
        proof {
            use_type_invariant(self);
            use_type_invariant(other);
        }
        self.secs < other.secs || (self.secs == other.secs && self.nanos < other.nanos)
    }

    /// Whether the two values denote the same instant, whatever their offsets.
    pub fn same_instant(&self, other: &Timestamp) -> (r: bool)
        ensures
            r == (self.instant() == other.instant()),
    {
        proof {
            use_type_invariant(self);
            use_type_invariant(other);
        }
        self.secs == other.secs && self.nanos == other.nanos
    }

    /// Whether this instant lies more than `days` whole days before `now`.
    pub fn is_older_than(&self, now: &Timestamp, days: u32) -> (r: bool)
        ensures
            r == (self.instant() + days * 86_400 * 1_000_000_000 < now.instant()),
    {
        proof {
            use_type_invariant(self);
            use_type_invariant(now);
        }
        let limit: i128 = self.secs as i128 + (days as i128) * 86_400;
        let now_secs: i128 = now.secs as i128;
        limit < now_secs || (limit == now_secs && self.nanos < now.nanos)
    }

    /// Whole seconds from this instant to `end`, rounded toward zero.
    pub fn seconds_until(&self, end: &Timestamp) -> (r: i64)
        ensures
            r == whole_seconds(end.instant() - self.instant()),
    {
        proof {
            use_type_invariant(self);
            use_type_invariant(end);
        }
        let ds: i64 = end.secs - self.secs;
        if ds < 0 && end.nanos > self.nanos {
            ds + 1
        } else if ds > 0 && end.nanos < self.nanos {
            ds - 1
        } else {
            ds
        }
    }

    /// The instant so many whole days earlier, at the same offset; the first supported
    /// second where that would lie before it.
    pub closed spec fn spec_days_before(self, days: int) -> Timestamp {
        Timestamp {
            secs: (if self.secs - days * 86_400 < MIN_SECS {
                MIN_SECS as int
            } else {
                self.secs - days * 86_400
            }) as i64,
            nanos: self.nanos,
            offset: self.offset,
        }
    }

    /// The instant so many whole days earlier, at the same offset; the first supported
    /// second where that would lie before it.
    pub fn days_before(&self, days: u32) -> (r: Timestamp)
        ensures
            r == self.spec_days_before(days as int),
            r.wf(),
            r.offset() == self.offset(),
            r.nanos() == self.nanos(),
            r.secs() == (if self.secs() - days * 86_400 < MIN_SECS {
                MIN_SECS as int
            } else {
                self.secs() - days * 86_400
            }),
    {
        proof {
            use_type_invariant(self);
        }
        let wanted: i128 = self.secs as i128 - (days as i128) * 86_400;
        let secs: i64 = if wanted < MIN_SECS as i128 {
            MIN_SECS
        } else {
            wanted as i64
        };
        Timestamp { secs, nanos: self.nanos, offset: self.offset }
    }

    /// The observer's civil day, counted from the Unix epoch.
    pub fn day_number(&self) -> (r: i64)
        ensures
            r == self.local_day(),
    {
        proof {
            use_type_invariant(self);
        }
        let shifted: i64 = self.secs + self.offset as i64 + EPOCH_SHIFT_DAYS * DAY_SECS;
        shifted / DAY_SECS - EPOCH_SHIFT_DAYS
    }

    /// Seconds since the observer's midnight.
    pub fn second_of_day(&self) -> (r: u32)
        ensures
            r == self.local_second_of_day(),
            r < 86_400,
    {
        proof {
            use_type_invariant(self);
        }
        let shifted: i64 = self.secs + self.offset as i64 + EPOCH_SHIFT_DAYS * DAY_SECS;
        (shifted % DAY_SECS) as u32
    }

    /// The instant as text under one of the known strftime patterns, in the observer's zone.
    pub fn format(&self, fmt: &str) -> (r: String)
        requires
            known_pattern(fmt@),
        ensures
            r@ == formatted_time(self.secs(), self.nanos(), self.offset(), fmt@),
    {
        proof {
            use_type_invariant(self);
        }
        format_instant(self.secs, self.nanos, self.offset, fmt)
    }

    /// The instant as RFC 3339 text, in the observer's zone.
    pub fn to_rfc3339(&self) -> (r: String)
        ensures
            r@ == rfc3339_text(self.secs(), self.nanos(), self.offset()),
    {
        proof {
            use_type_invariant(self);
        }
        rfc3339_of_instant(self.secs, self.nanos, self.offset)
    }

    /// Reads an RFC 3339 text: nothing where `chrono` rejects the text, else the supported
    /// timestamp nearest to what `chrono` read. A second 60 is read as the end of second
    /// 59, and a year before 1 or after 9999 as the first or the last supported second.
    pub fn parse_rfc3339(s: &str) -> (r: Option<Timestamp>)
        ensures
            match rfc3339_reading(s@) {
                Some(v) => r matches Some(t) && t.wf() && t.secs() == clamped_secs(v.0)
                    && t.nanos() == clamped_nanos(v.1) && t.offset() == clamped_offset(v.2),
                None => r is None,
            },
    {
        match read_rfc3339(s) {
            Ok((secs, nanos, offset)) => Some(Timestamp::saturating(secs, nanos, offset)),
            Err(_) => None,
        }
    }
}

/// A duration in nanoseconds as whole seconds, rounded toward zero.
pub open spec fn whole_seconds(nanos: int) -> int {
    if nanos >= 0 {
        nanos / 1_000_000_000
    } else {
        -((-nanos) / 1_000_000_000)
    }
}

/// Reads a time of day written as `HH:MM`: seconds since midnight, or the error `chrono`
/// gave.
pub fn parse_clock_time(s: &str) -> (r: Result<u32, chrono::ParseError>)
    ensures
        r is Ok <==> clock_time_reading(s@) is Some,
        r matches Ok(v) ==> clock_time_reading(s@) == Some(v as int) && v < 86_400,
{
    read_clock_time(s)
}

/// The offset of the local zone at an instant, in seconds east of UTC: `chrono`'s
/// `DateTime::with_timezone` to `Local` on the instant that `DateTime::from_timestamp`
/// builds, which succeeds on numbers in range. The offset depends on the zone of the
/// machine: nothing is claimed of it.
#[verifier::external_body]
fn local_offset_at(secs: i64, nanos: u32) -> (r: i32)
    requires
        in_range(secs as int, nanos as int, 0),
{
    let utc = chrono::DateTime::from_timestamp(secs, nanos).unwrap();
    utc.with_timezone(&chrono::Local).offset().local_minus_utc()
}

/// `chrono::DateTime::format` on the instant rebuilt by `DateTime::from_timestamp` and
/// `FixedOffset::east_opt`. Both succeed on numbers in range, and a known pattern holds no
/// item that `chrono` fails to write; the text itself is only named.
#[verifier::external_body]
fn format_instant(secs: i64, nanos: u32, offset: i32, fmt: &str) -> (r: String)
    requires
        in_range(secs as int, nanos as int, offset as int),
        known_pattern(fmt@),
    ensures
        r@ == formatted_time(secs as int, nanos as int, offset as int, fmt@),
{
    let utc = chrono::DateTime::from_timestamp(secs, nanos).unwrap();
    let zone = chrono::FixedOffset::east_opt(offset).unwrap();
    utc.with_timezone(&zone).format(fmt).to_string()
}

/// `chrono::DateTime::to_rfc3339` on the instant rebuilt as in `format_instant`; the text
/// is only named.
#[verifier::external_body]
fn rfc3339_of_instant(secs: i64, nanos: u32, offset: i32) -> (r: String)
    requires
        in_range(secs as int, nanos as int, offset as int),
    ensures
        r@ == rfc3339_text(secs as int, nanos as int, offset as int),
{
    let utc = chrono::DateTime::from_timestamp(secs, nanos).unwrap();
    let zone = chrono::FixedOffset::east_opt(offset).unwrap();
    utc.with_timezone(&zone).to_rfc3339()
}

/// `chrono::DateTime::parse_from_rfc3339`; an accepted text is handed back as Unix seconds,
/// nanoseconds and offset, under the name of the reading.
#[verifier::external_body]
fn read_rfc3339(s: &str) -> (r: Result<(i64, u32, i32), chrono::ParseError>)
    ensures
        r is Ok <==> rfc3339_reading(s@) is Some,
        r matches Ok(v) ==> rfc3339_reading(s@) == Some((v.0 as int, v.1 as int, v.2 as int)),
{
    let parsed = chrono::DateTime::parse_from_rfc3339(s)?;
    Ok((parsed.timestamp(), parsed.timestamp_subsec_nanos(), parsed.offset().local_minus_utc()))
}

/// `chrono::NaiveTime::parse_from_str` with the pattern `%H:%M`; an accepted text is handed
/// back as seconds since midnight, which `chrono` keeps below 86 400.
#[verifier::external_body]
fn read_clock_time(s: &str) -> (r: Result<u32, chrono::ParseError>)
    ensures
        r is Ok <==> clock_time_reading(s@) is Some,
        r matches Ok(v) ==> clock_time_reading(s@) == Some(v as int) && v < 86_400,
{
    let parsed = chrono::NaiveTime::parse_from_str(s, "%H:%M")?;
    Ok(chrono::Timelike::num_seconds_from_midnight(&parsed))
}

/// The time since the Unix epoch by the system clock, in whole seconds and nanoseconds
/// past the second; no time at all where the clock stands before the epoch.
pub fn epoch_reading() -> (r: (u64, u32))
    ensures
        r.1 < 1_000_000_000,
{
    let now = system_now();
    match since_epoch(&now) {
        Some(elapsed) => (whole_secs(&elapsed), subsec_nanos_of(&elapsed)),
        None => (0, 0),
    }
}

/// `SystemTime::now`. The reading depends on the clock: nothing is claimed of it.
#[verifier::external_body]
fn system_now() -> std::time::SystemTime {
    std::time::SystemTime::now()
}

/// `SystemTime::duration_since` the Unix epoch: the time from the epoch to the reading, or
/// nothing where the reading lies before the epoch. Nothing is claimed of the time.
#[verifier::external_body]
fn since_epoch(reading: &std::time::SystemTime) -> Option<std::time::Duration> {
    reading.duration_since(std::time::UNIX_EPOCH).ok()
}

/// `Duration::as_secs`: the whole seconds of a duration. Nothing is claimed of them.
#[verifier::external_body]
fn whole_secs(elapsed: &std::time::Duration) -> u64 {
    elapsed.as_secs()
}

/// `Duration::subsec_nanos`: the part of a duration past its whole seconds, in
/// nanoseconds, which is always less than one billion.
#[verifier::external_body]
fn subsec_nanos_of(elapsed: &std::time::Duration) -> (r: u32)
    ensures
        r < 1_000_000_000,
{
    elapsed.subsec_nanos()
}

} // verus!
