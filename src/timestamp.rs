//! UTC timestamps: seconds since the UNIX epoch and nanoseconds beyond them.
use vstd::prelude::*;

verus! {

/// Nanoseconds in one second.
pub const NANOS_PER_SEC: u32 = 1_000_000_000;

/// A UTC timestamp for headers: seconds since the UNIX epoch (midnight
/// 1970-01-01 UTC), then nanoseconds in addition to them. There is no way to
/// read the clock here.
#[derive(Debug, Clone, Copy, PartialEq, Eq, Structural, PartialOrd, Ord, Hash)]
pub struct Timestamp(pub i64, pub u32);

/// Why a timestamp could not be made.
#[derive(Debug, Clone, Copy, PartialEq, Eq, Structural)]
pub enum TimestampError {
    /// The result lies outside the range of representable times.
    Overflow,
    /// The text is not an RFC 3339 time.
    Parse,
}

/// The instant in nanoseconds since the epoch.
pub open spec fn total_nanos(secs: int, nsecs: int) -> int {
    secs * NANOS_PER_SEC + nsecs
}

/// The RFC 3339 text that chrono writes for an instant, with as many
/// fractional digits as the nanoseconds need and `Z` for UTC; `None` where
/// chrono has no date for it.
pub uninterp spec fn rfc3339_of(secs: i64, nsecs: u32) -> Option<Seq<char>>;

/// The instant, in UTC, that chrono reads from an RFC 3339 text, if it is one.
pub uninterp spec fn parsed_rfc3339(t: Seq<char>) -> Option<(i64, u32)>;

/// Relies on chrono's `DateTime::from_timestamp`, `TimeDelta::new` and
/// `DateTime::checked_add_signed`: outside a leap second the sum is exact and
/// normalised; `None` where either the instant or the sum has no date.
#[verifier::external_body]
fn chrono_add(secs: i64, nsecs: u32, dsecs: u64, dnanos: u32) -> (r: Option<(i64, u32)>)
    ensures
        nsecs < NANOS_PER_SEC && dnanos < NANOS_PER_SEC ==> match r {
            Some((s, n)) => n < NANOS_PER_SEC && total_nanos(s as int, n as int) == total_nanos(
                secs as int,
                nsecs as int,
            ) + total_nanos(dsecs as int, dnanos as int),
            None => true,
        },
{
    let t = chrono::DateTime::from_timestamp(secs, nsecs)?;
    let d = chrono::TimeDelta::new(i64::try_from(dsecs).ok()?, dnanos)?;
    let r = t.checked_add_signed(d)?;
    Some((r.timestamp(), r.timestamp_subsec_nanos()))
}

/// Relies on chrono's `DateTime::from_timestamp`, `TimeDelta::new` and
/// `DateTime::checked_sub_signed`: outside a leap second the difference is
/// exact and normalised; `None` where either instant has no date.
#[verifier::external_body]
fn chrono_sub(secs: i64, nsecs: u32, dsecs: u64, dnanos: u32) -> (r: Option<(i64, u32)>)
    ensures
        nsecs < NANOS_PER_SEC && dnanos < NANOS_PER_SEC ==> match r {
            Some((s, n)) => n < NANOS_PER_SEC && total_nanos(s as int, n as int) == total_nanos(
                secs as int,
                nsecs as int,
            ) - total_nanos(dsecs as int, dnanos as int),
            None => true,
        },
{
    let t = chrono::DateTime::from_timestamp(secs, nsecs)?;
    let d = chrono::TimeDelta::new(i64::try_from(dsecs).ok()?, dnanos)?;
    let r = t.checked_sub_signed(d)?;
    Some((r.timestamp(), r.timestamp_subsec_nanos()))
}

/// Relies on chrono's `DateTime::from_timestamp` and
/// `DateTime::to_rfc3339_opts` with automatic fractional digits and `Z`.
#[verifier::external_body]
fn chrono_rfc3339(secs: i64, nsecs: u32) -> (r: Option<String>)
    ensures
        match r {
            Some(t) => rfc3339_of(secs, nsecs) == Some(t@),
            None => rfc3339_of(secs, nsecs) is None,
        },
{
    let t = chrono::DateTime::from_timestamp(secs, nsecs)?;
    Some(t.to_rfc3339_opts(chrono::SecondsFormat::AutoSi, true))
}

/// Relies on chrono's `DateTime::parse_from_rfc3339`, read back in UTC.
#[verifier::external_body]
fn chrono_parse_rfc3339(t: &str) -> (r: Option<(i64, u32)>)
    ensures
        r == parsed_rfc3339(t@),
{
    let t = chrono::DateTime::parse_from_rfc3339(t).ok()?.to_utc();
    Some((t.timestamp(), t.timestamp_subsec_nanos()))
}

impl Timestamp {
    /// A timestamp from the given seconds and nanoseconds.
    pub fn new(secs: i64, nsecs: u32) -> (r: Timestamp)
        ensures
            r == Timestamp(secs, nsecs),
    {
        Timestamp(secs, nsecs)
    }

    /// This timestamp moved forward by `secs` seconds and `nanos`
    /// nanoseconds, or `Overflow` where the result has no date.
    pub fn checked_add(&self, secs: u64, nanos: u32) -> (r: Result<Timestamp, TimestampError>)
        requires
            nanos < NANOS_PER_SEC,
        ensures
            match r {
                Ok(t) => self.1 < NANOS_PER_SEC ==> t.1 < NANOS_PER_SEC && total_nanos(
                    t.0 as int,
                    t.1 as int,
                ) == total_nanos(self.0 as int, self.1 as int) + total_nanos(
                    secs as int,
                    nanos as int,
                ),
                Err(e) => e == TimestampError::Overflow,
            },
    {
        match chrono_add(self.0, self.1, secs, nanos) {
            Some((s, n)) => Ok(Timestamp(s, n)),
            None => Err(TimestampError::Overflow),
        }
    }

    /// This timestamp moved back by `secs` seconds and `nanos` nanoseconds,
    /// or `Overflow` where the result has no date.
    pub fn checked_sub(&self, secs: u64, nanos: u32) -> (r: Result<Timestamp, TimestampError>)
        requires
            nanos < NANOS_PER_SEC,
        ensures
            match r {
                Ok(t) => self.1 < NANOS_PER_SEC ==> t.1 < NANOS_PER_SEC && total_nanos(
                    t.0 as int,
                    t.1 as int,
                ) == total_nanos(self.0 as int, self.1 as int) - total_nanos(
                    secs as int,
                    nanos as int,
                ),
                Err(e) => e == TimestampError::Overflow,
            },
    {
        match chrono_sub(self.0, self.1, secs, nanos) {
            Some((s, n)) => Ok(Timestamp(s, n)),
            None => Err(TimestampError::Overflow),
        }
    }

    /// The RFC 3339 text of this timestamp in UTC, or `None` where it has no
    /// date.
    pub fn to_rfc3339(&self) -> (r: Option<String>)
        ensures
            match r {
                Some(t) => rfc3339_of(self.0, self.1) == Some(t@),
                None => rfc3339_of(self.0, self.1) is None,
            },
    {
        chrono_rfc3339(self.0, self.1)
    }

    /// Reads an RFC 3339 time, in any offset, as a UTC timestamp.
    pub fn parse(t: &str) -> (r: Result<Timestamp, TimestampError>)
        ensures
            r == match parsed_rfc3339(t@) {
                Some((s, n)) => Ok::<Timestamp, TimestampError>(Timestamp(s, n)),
                None => Err(TimestampError::Parse),
            },
    {
        match chrono_parse_rfc3339(t) {
            Some((s, n)) => Ok(Timestamp(s, n)),
            None => Err(TimestampError::Parse),
        }
    }
}

impl From<i64> for Timestamp {
    fn from(secs: i64) -> (r: Timestamp) {
        Timestamp::new(secs, 0)
    }
}

impl vstd::std_specs::convert::FromSpecImpl<i64> for Timestamp {
    open spec fn obeys_from_spec() -> bool {
        true
    }

    open spec fn from_spec(secs: i64) -> Timestamp {
        Timestamp(secs, 0)
    }
}

impl From<u64> for Timestamp {
    fn from(secs: u64) -> (r: Timestamp) {
        Timestamp::new(secs as i64, 0)
    }
}

impl vstd::std_specs::convert::FromSpecImpl<u64> for Timestamp {
    open spec fn obeys_from_spec() -> bool {
        true
    }

    open spec fn from_spec(secs: u64) -> Timestamp {
        Timestamp(secs as i64, 0)
    }
}

impl From<i32> for Timestamp {
    fn from(secs: i32) -> (r: Timestamp) {
        Timestamp::new(secs as i64, 0)
    }
}

impl vstd::std_specs::convert::FromSpecImpl<i32> for Timestamp {
    open spec fn obeys_from_spec() -> bool {
        true
    }

    open spec fn from_spec(secs: i32) -> Timestamp {
        Timestamp(secs as i64, 0)
    }
}

impl From<u32> for Timestamp {
    fn from(secs: u32) -> (r: Timestamp) {
        Timestamp::new(secs as i64, 0)
    }
}

impl vstd::std_specs::convert::FromSpecImpl<u32> for Timestamp {
    open spec fn obeys_from_spec() -> bool {
        true
    }

    open spec fn from_spec(secs: u32) -> Timestamp {
        Timestamp(secs as i64, 0)
    }
}

impl std::str::FromStr for Timestamp {
    type Err = TimestampError;

    fn from_str(t: &str) -> (r: Result<Timestamp, TimestampError>)
        ensures
            r == match parsed_rfc3339(t@) {
                Some((s, n)) => Ok::<Timestamp, TimestampError>(Timestamp(s, n)),
                None => Err(TimestampError::Parse),
            },
    {
        Timestamp::parse(t)
    }
}

impl TryFrom<&str> for Timestamp {
    type Error = TimestampError;

    fn try_from(t: &str) -> (r: Result<Timestamp, TimestampError>) {
        Timestamp::parse(t)
    }
}

impl vstd::std_specs::convert::TryFromSpecImpl<&str> for Timestamp {
    open spec fn obeys_try_from_spec() -> bool {
        true
    }

    open spec fn try_from_spec(t: &str) -> Result<Timestamp, TimestampError> {
        match parsed_rfc3339(t@) {
            Some((s, n)) => Ok(Timestamp(s, n)),
            None => Err(TimestampError::Parse),
        }
    }
}

impl TryFrom<String> for Timestamp {
    type Error = TimestampError;

    fn try_from(t: String) -> (r: Result<Timestamp, TimestampError>) {
        Timestamp::parse(t.as_str())
    }
}

impl vstd::std_specs::convert::TryFromSpecImpl<String> for Timestamp {
    open spec fn obeys_try_from_spec() -> bool {
        true
    }

    open spec fn try_from_spec(t: String) -> Result<Timestamp, TimestampError> {
        match parsed_rfc3339(t@) {
            Some((s, n)) => Ok(Timestamp(s, n)),
            None => Err(TimestampError::Parse),
        }
    }
}

} // verus!
