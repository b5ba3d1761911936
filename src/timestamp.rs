//! Instants with a fixed UTC offset, the age of an entry in whole days, and
//! the RFC 2822 text of an instant.

use vstd::prelude::*;

verus! {

/// Nanoseconds in a second.
pub const NANOS_PER_SEC: i128 = 1_000_000_000;

/// Nanoseconds in a day.
pub const NANOS_PER_DAY: i128 = 86_400_000_000_000;

/// Seconds from the Unix epoch back to 0000-01-01T00:00:00.
pub const FIRST_SECOND: i64 = -62_167_219_200;

/// Seconds from the Unix epoch to 10000-01-01T00:00:00.
pub const END_SECOND: i64 = 253_402_300_800;

/// Seconds in a day; an offset lies strictly between minus and plus this.
pub const SECS_PER_DAY: i32 = 86_400;

/// An instant: seconds and nanoseconds since the Unix epoch (UTC), with the
/// fixed offset in seconds that the instant was written with.
#[derive(Clone, Copy, Debug, PartialEq, Eq, Structural)]
pub struct Timestamp {
    pub secs: i64,
    pub nanos: u32,
    pub offset: i32,
}

/// An offset that a fixed time zone can have.
pub open spec fn offset_ok(offset: int) -> bool {
    -(SECS_PER_DAY as int) < offset < SECS_PER_DAY as int
}

/// The local date of the instant falls in the years 0 to 9999, the range in
/// which RFC 2822 can write it.
pub open spec fn in_rfc2822_range(secs: int, offset: int) -> bool {
    offset_ok(offset) && FIRST_SECOND as int <= secs + offset < END_SECOND as int
}

/// Rounds the quotient toward zero, as integer division in Rust does.
pub open spec fn div_toward_zero(a: int, d: int) -> int
    recommends
        d > 0,
{
    if a >= 0 {
        a / d
    } else {
        -((-a) / d)
    }
}

/// Nanoseconds from `earlier` to `later`.
pub open spec fn nanos_between(later: Timestamp, earlier: Timestamp) -> int {
    (later.secs - earlier.secs) * NANOS_PER_SEC + (later.nanos - earlier.nanos)
}

/// Whole days from `earlier` to `later`, rounded toward zero.
pub open spec fn days_between(later: Timestamp, earlier: Timestamp) -> int {
    div_toward_zero(nanos_between(later, earlier), NANOS_PER_DAY as int)
}

/// The RFC 2822 text that chrono's `DateTime::format` writes with the layout
/// `%a, %d %b %Y %H:%M:%S %z` for the instant `secs` (seconds since the epoch)
/// seen at UTC offset `offset`.
pub uninterp spec fn rfc2822_text(secs: int, offset: int) -> Seq<char>;

/// What chrono's `DateTime::parse_from_rfc2822` reads from `text`: the seconds
/// and nanoseconds since the epoch and the offset, or nothing.
pub uninterp spec fn rfc2822_reading(text: Seq<char>) -> Option<(int, int, int)>;

impl Timestamp {
    pub open spec fn wf(self) -> bool {
        in_rfc2822_range(self.secs as int, self.offset as int)
    }

    /// The instant with these parts, where it can be written in RFC 2822.
    pub fn new(secs: i64, nanos: u32, offset: i32) -> (r: Option<Timestamp>)
        ensures
            r is Some <==> in_rfc2822_range(secs as int, offset as int),
            r matches Some(t) ==> t == (Timestamp { secs, nanos, offset }),
    {
        if -SECS_PER_DAY < offset && offset < SECS_PER_DAY {
            let local = secs as i128 + offset as i128;
            if FIRST_SECOND as i128 <= local && local < END_SECOND as i128 {
                return Some(Timestamp { secs, nanos, offset });
            }
        }
        None
    }

    /// Whether the instant can be written in RFC 2822 at its offset.
    pub fn is_valid(&self) -> (r: bool)
        ensures
            r == self.wf(),
    {
        Timestamp::new(self.secs, self.nanos, self.offset).is_some()
    }

    /// Whole days elapsed from `earlier` to `self`, rounded toward zero; the
    /// result is negative where `earlier` lies after `self`.
    pub fn days_since(&self, earlier: &Timestamp) -> (r: i64)
        requires
            self.wf(),
            earlier.wf(),
        ensures
            r as int == days_between(*self, *earlier),
    {
        let ds: i128 = self.secs as i128 - earlier.secs as i128;
        let dn: i128 = self.nanos as i128 - earlier.nanos as i128;
        assert(-400_000_000_000 <= ds <= 400_000_000_000);
        assert(-400_000_000_000 * NANOS_PER_SEC <= ds * NANOS_PER_SEC <= 400_000_000_000
            * NANOS_PER_SEC) by (nonlinear_arith)
            requires
                -400_000_000_000 <= ds <= 400_000_000_000,
        ;
        let total: i128 = ds * NANOS_PER_SEC + dn;
        assert(total == nanos_between(*self, *earlier));
        let magnitude: i128 = if total >= 0 {
            total
        } else {
            -total
        };
        let whole: i128 = magnitude / NANOS_PER_DAY;
        assert(0 <= whole <= 10_000_000_000) by (nonlinear_arith)
            requires
                0 <= magnitude <= 500_000_000_000_000_000_000,
                whole == magnitude / 86_400_000_000_000i128,
        ;
        let days: i128 = if total >= 0 {
            whole
        } else {
            -whole
        };
        days as i64
    }

    /// The instant as RFC 2822 text, at its own offset.
    pub fn to_rfc2822(&self) -> (r: String)
        requires
            self.wf(),
        ensures
            r@ == rfc2822_text(self.secs as int, self.offset as int),
    {
        format_rfc2822(self.secs, self.offset)
    }

    /// Reads an RFC 2822 date, where it names an instant in the years 0 to
    /// 9999 of its own offset.
    pub fn parse_rfc2822(text: &str) -> (r: Option<Timestamp>)
        ensures
            r matches Some(t) ==> t.wf() && rfc2822_reading(text@) == Some(
                (t.secs as int, t.nanos as int, t.offset as int),
            ),
            r is None ==> match rfc2822_reading(text@) {
                Some(p) => !in_rfc2822_range(p.0, p.2),
                None => true,
            },
    {
        match read_rfc2822(text) {
            Some(parts) => Timestamp::new(parts.0, parts.1, parts.2),
            None => None,
        }
    }

    /// The current time in UTC, where it lies in the years 0 to 9999.
    pub fn now() -> (r: Option<Timestamp>)
        ensures
            r matches Some(t) ==> t.wf() && t.offset == 0,
    {
        match clock_now() {
            Ok((secs, nanos)) => {
                if secs > END_SECOND as u64 {
                    return None;
                }
                Timestamp::new(secs as i64, nanos, 0)
            },
            Err((secs, nanos)) => {
                if secs > (-FIRST_SECOND) as u64 {
                    return None;
                }
                if nanos == 0 {
                    Timestamp::new(-(secs as i64), 0, 0)
                } else {
                    Timestamp::new(-(secs as i64) - 1, 1_000_000_000 - nanos, 0)
                }
            },
        }
    }

    /// Nanoseconds from `earlier` to `self`; negative where `earlier` lies
    /// after `self`.
    pub fn nanos_since(&self, earlier: &Timestamp) -> (r: i128)
        requires
            self.wf(),
            earlier.wf(),
        ensures
            r as int == nanos_between(*self, *earlier),
    {
        let ds: i128 = self.secs as i128 - earlier.secs as i128;
        let dn: i128 = self.nanos as i128 - earlier.nanos as i128;
        assert(-400_000_000_000 * NANOS_PER_SEC <= ds * NANOS_PER_SEC <= 400_000_000_000
            * NANOS_PER_SEC) by (nonlinear_arith)
            requires
                -400_000_000_000 <= ds <= 400_000_000_000,
        ;
        ds * NANOS_PER_SEC + dn
    }
}

/// Relies on chrono's `DateTime::from_timestamp`, `FixedOffset::east_opt` and
/// `DateTime::format` with the RFC 2822 layout `%a, %d %b %Y %H:%M:%S %z`
/// (day of the month in two digits). Within the range required the first two
/// return a value and the year has four digits.
#[verifier::external_body]
fn format_rfc2822(secs: i64, offset: i32) -> (r: String)
    requires
        in_rfc2822_range(secs as int, offset as int),
    ensures
        r@ == rfc2822_text(secs as int, offset as int),
{
    let utc = chrono::DateTime::from_timestamp(secs, 0).unwrap();
    let zone = chrono::FixedOffset::east_opt(offset).unwrap();
    utc.with_timezone(&zone).format("%a, %d %b %Y %H:%M:%S %z").to_string()
}

/// Relies on chrono's `DateTime::parse_from_rfc2822`, read out through
/// `timestamp`, `timestamp_subsec_nanos` and `FixedOffset::local_minus_utc`.
#[verifier::external_body]
fn read_rfc2822(text: &str) -> (r: Option<(i64, u32, i32)>)
    ensures
        r matches Some(p) ==> rfc2822_reading(text@) == Some(
            (p.0 as int, p.1 as int, p.2 as int),
        ),
        r is None ==> rfc2822_reading(text@) is None,
{
    match chrono::DateTime::parse_from_rfc2822(text) {
        Ok(d) => Some((d.timestamp(), d.timestamp_subsec_nanos(), d.offset().local_minus_utc())),
        Err(_) => None,
    }
}

/// Relies on std's `SystemTime::now` and `SystemTime::duration_since` from
/// `UNIX_EPOCH`: the time since the epoch as whole seconds and the
/// nanoseconds beyond them, or, where the clock reads before the epoch, the
/// same for the time before it. `Duration::subsec_nanos` is below a second.
#[verifier::external_body]
fn clock_now() -> (r: Result<(u64, u32), (u64, u32)>)
    ensures
        match r {
            Ok(p) => p.1 < 1_000_000_000,
            Err(p) => p.1 < 1_000_000_000,
        },
{
    match std::time::SystemTime::now().duration_since(std::time::UNIX_EPOCH) {
        Ok(d) => Ok((d.as_secs(), d.subsec_nanos())),
        Err(e) => Err((e.duration().as_secs(), e.duration().subsec_nanos())),
    }
}

} // verus!
