//! Tick and calendar time encodings.
//!
//! A tick timestamp counts 100-nanosecond intervals since 1601-01-01. The
//! legacy split representation carries the same 64-bit count as two 32-bit
//! halves.

use vstd::prelude::*;

use crate::calendar::{
    days_before_year, days_from_civil, days_in_month, days_to_civil, civil_to_days,
    lemma_days_before_year_monotone, spec_days_in_month, valid_ymd,
};

verus! {

/// Ticks from 1601-01-01 to 1970-01-01: the offset between the tick epoch
/// and the Unix epoch.
pub const EPOCH_DELTA_TICKS: u64 = 116444736000000000;

/// The largest tick count past the Unix epoch whose nanosecond equivalent
/// still fits a signed 64-bit count (`i64::MAX / 100`).
pub const MAX_UNIX_TICKS: u64 = 92233720368547758;

const NANOS_PER_DAY: u64 = 86400000000000;

const NANOS_PER_SEC: u64 = 1000000000;

/// Why a time conversion was refused.
#[derive(Clone, Copy, PartialEq, Eq, Structural, Debug)]
pub enum TimeError {
    /// The tick count names an instant before 1970-01-01.
    BeforeUnixEpoch,
    /// The instant does not fit the representable nanosecond or tick range.
    RangeExceeded,
    /// Broken-down fields do not name a real calendar instant.
    InvalidSystemTime,
}

/// The legacy split time representation: a 64-bit tick count stored as two
/// 32-bit halves.
#[derive(Clone, Copy, PartialEq, Eq, Structural, Debug)]
pub struct FileTime {
    pub low: u32,
    pub high: u32,
}

/// The tick count that a split representation stands for.
pub open spec fn spec_combine_ticks(low: u32, high: u32) -> u64 {
    ((high as u64) << 32u64) | (low as u64)
}

impl FileTime {
    /// Split a 64-bit tick count into its low and high 32-bit halves.
    pub fn from_ticks(ticks: u64) -> (r: FileTime)
        ensures
            r.low == ticks & 0xFFFF_FFFFu64,
            r.high == ticks >> 32u64,
            spec_combine_ticks(r.low, r.high) == ticks,
    {
        proof {
            assert(ticks & 0xFFFF_FFFFu64 <= 0xFFFF_FFFFu64) by (bit_vector);
            assert(ticks >> 32u64 <= 0xFFFF_FFFFu64) by (bit_vector);
        }
        let low: u32 = (ticks & 0xFFFF_FFFF) as u32;
        let high: u32 = (ticks >> 32) as u32;
        proof {
            lemma_split_combine_roundtrip(ticks);
        }
        FileTime { low, high }
    }

    /// Recombine the two halves into the 64-bit tick count.
    pub fn to_ticks(&self) -> (r: u64)
        ensures
            r == spec_combine_ticks(self.low, self.high),
    {
        ((self.high as u64) << 32) | (self.low as u64)
    }

    /// Convert the split representation to the calendar timestamp its
    /// combined tick count names.
    pub fn to_timestamp(&self) -> (r: Result<Timestamp, TimeError>)
        ensures
            spec_combine_ticks(self.low, self.high) < EPOCH_DELTA_TICKS ==> r == Err::<
                Timestamp,
                TimeError,
            >(TimeError::BeforeUnixEpoch),
            spec_combine_ticks(self.low, self.high) > EPOCH_DELTA_TICKS + MAX_UNIX_TICKS ==> r
                == Err::<Timestamp, TimeError>(TimeError::RangeExceeded),
            EPOCH_DELTA_TICKS <= spec_combine_ticks(self.low, self.high) <= EPOCH_DELTA_TICKS
                + MAX_UNIX_TICKS ==> (r matches Ok(ts) && timestamp_valid(ts) && ts.year >= 1970
                && timestamp_unix_nanos(ts) == (spec_combine_ticks(self.low, self.high)
                - EPOCH_DELTA_TICKS) * 100),
    {
        ticks_to_timestamp(self.to_ticks())
    }
}

/// Splitting a tick count and recombining the halves gives back the original
/// count, for every 64-bit value.
pub proof fn lemma_split_combine_roundtrip(ticks: u64)
    ensures
        spec_combine_ticks((ticks & 0xFFFF_FFFFu64) as u32, (ticks >> 32u64) as u32) == ticks,
{
    assert(((((ticks >> 32u64) as u32) as u64) << 32u64) | ((ticks & 0xFFFF_FFFFu64) as u32)
        as u64 == ticks) by (bit_vector);
}

/// A calendar timestamp: broken-down UTC civil fields with nanosecond
/// precision.
#[derive(Clone, Copy, PartialEq, Eq, Structural, Debug)]
pub struct Timestamp {
    pub year: u16,
    pub month: u8,
    pub day: u8,
    pub hour: u8,
    pub minute: u8,
    pub second: u8,
    pub nanosecond: u32,
}

/// The fields name a real instant.
pub open spec fn timestamp_valid(ts: Timestamp) -> bool {
    &&& valid_ymd(ts.year as int, ts.month as int, ts.day as int)
    &&& ts.hour < 24
    &&& ts.minute < 60
    &&& ts.second < 60
    &&& ts.nanosecond < 1000000000
}

/// Nanoseconds from the Unix epoch to the instant the fields name
/// (negative before 1970).
pub open spec fn timestamp_unix_nanos(ts: Timestamp) -> int {
    (days_from_civil(ts.year as int, ts.month as int, ts.day as int) * 86400 + ts.hour as int
        * 3600 + ts.minute as int * 60 + ts.second as int) * 1000000000 + ts.nanosecond as int
}

impl Timestamp {
    /// The fields name a real instant.
    pub fn is_valid(&self) -> (r: bool)
        ensures
            r == timestamp_valid(*self),
    {
        1 <= self.month && self.month <= 12 && 1 <= self.day as u32 && self.day as u32
            <= days_in_month(self.year, self.month) && self.hour < 24 && self.minute < 60
            && self.second < 60 && self.nanosecond < 1000000000
    }

    /// The sub-second part, in whole milliseconds.
    pub fn subsec_millis(&self) -> (r: u32)
        ensures
            r == self.nanosecond as int / 1000000,
    {
        self.nanosecond / 1000000
    }
}

/// Convert a tick count (100-nanosecond units since 1601-01-01) to the
/// calendar timestamp it names. Ticks before the Unix epoch, and ticks whose
/// nanosecond equivalent exceeds the signed 64-bit range, are refused rather
/// than wrapped.
pub fn ticks_to_timestamp(ticks: u64) -> (r: Result<Timestamp, TimeError>)
    ensures
        ticks < EPOCH_DELTA_TICKS ==> r == Err::<Timestamp, TimeError>(TimeError::BeforeUnixEpoch),
        ticks > EPOCH_DELTA_TICKS + MAX_UNIX_TICKS ==> r == Err::<Timestamp, TimeError>(
            TimeError::RangeExceeded,
        ),
        EPOCH_DELTA_TICKS <= ticks <= EPOCH_DELTA_TICKS + MAX_UNIX_TICKS ==> (r matches Ok(ts)
            && timestamp_valid(ts) && ts.year >= 1970 && timestamp_unix_nanos(ts) == (ticks
            - EPOCH_DELTA_TICKS) * 100),
{
    if ticks < EPOCH_DELTA_TICKS {
        return Err(TimeError::BeforeUnixEpoch);
    }
    let unix_ticks: u64 = ticks - EPOCH_DELTA_TICKS;
    if unix_ticks > MAX_UNIX_TICKS {
        return Err(TimeError::RangeExceeded);
    }
    let nanos: u64 = unix_ticks * 100;
    let days64: u64 = nanos / NANOS_PER_DAY;
    let day_rem: u64 = nanos % NANOS_PER_DAY;
    let sod: u64 = day_rem / NANOS_PER_SEC;
    let ns: u64 = day_rem % NANOS_PER_SEC;
    let hour: u64 = sod / 3600;
    let min_rem: u64 = sod % 3600;
    let minute: u64 = min_rem / 60;
    let second: u64 = min_rem % 60;
    proof {
        assert(days64 < 120000);
        lemma_days_before_year_monotone(1970, 65536);
        assert(days_before_year(65536) >= 365 * (65536 - 1970));
    }
    let (year, month, day) = days_to_civil(days64 as u32);
    let ts = Timestamp {
        year,
        month,
        day,
        hour: hour as u8,
        minute: minute as u8,
        second: second as u8,
        nanosecond: ns as u32,
    };
    proof {
        assert(nanos == days64 * NANOS_PER_DAY + day_rem);
        assert(day_rem == sod * NANOS_PER_SEC + ns);
        assert(sod == hour * 3600 + min_rem);
        assert(min_rem == minute * 60 + second);
        assert((days64 as int * 86400 + hour as int * 3600 + minute as int * 60 + second as int)
            * 1000000000 == days64 as int * 86400000000000 + (hour as int * 3600 + minute as int
            * 60 + second as int) * 1000000000) by (nonlinear_arith);
        assert(timestamp_unix_nanos(ts) == nanos);
    }
    Ok(ts)
}

/// Convert a calendar timestamp at or after the Unix epoch back to a tick
/// count, truncating the sub-100-nanosecond part.
pub fn timestamp_to_ticks(ts: &Timestamp) -> (r: Result<u64, TimeError>)
    requires
        timestamp_valid(*ts),
    ensures
        ts.year < 1970 ==> r == Err::<u64, TimeError>(TimeError::BeforeUnixEpoch),
        ts.year >= 1970 && EPOCH_DELTA_TICKS + timestamp_unix_nanos(*ts) / 100 <= u64::MAX
            ==> r == Ok::<u64, TimeError>(
            (EPOCH_DELTA_TICKS + timestamp_unix_nanos(*ts) / 100) as u64,
        ),
        ts.year >= 1970 && EPOCH_DELTA_TICKS + timestamp_unix_nanos(*ts) / 100 > u64::MAX ==> r
            == Err::<u64, TimeError>(TimeError::RangeExceeded),
{
    if ts.year < 1970 {
        return Err(TimeError::BeforeUnixEpoch);
    }
    let days: u32 = civil_to_days(ts.year, ts.month, ts.day);
    let secs: u128 = (days as u128) * 86400 + (ts.hour as u128) * 3600 + (ts.minute as u128) * 60
        + (ts.second as u128);
    let nanos: u128 = secs * 1000000000 + (ts.nanosecond as u128);
    let ticks: u128 = (EPOCH_DELTA_TICKS as u128) + nanos / 100;
    proof {
        assert(secs * 1000000000 == (days as int * 86400 + ts.hour as int * 3600 + ts.minute as int
            * 60 + ts.second as int) * 1000000000) by (nonlinear_arith)
            requires
                secs == days as int * 86400 + ts.hour as int * 3600 + ts.minute as int * 60
                    + ts.second as int,
        ;
        assert(nanos == timestamp_unix_nanos(*ts));
    }
    if ticks > 0xFFFFFFFFFFFFFFFF {
        return Err(TimeError::RangeExceeded);
    }
    Ok(ticks as u64)
}

/// Broken-down time as the external source reports it: all fields 16-bit,
/// month and day 1-based, `day_of_week` ignored by the conversions.
#[derive(Clone, Copy, PartialEq, Eq, Structural, Debug)]
pub struct SystemTime {
    pub year: u16,
    pub month: u16,
    pub day_of_week: u16,
    pub day: u16,
    pub hour: u16,
    pub minute: u16,
    pub second: u16,
    pub millisecond: u16,
}

/// The broken-down fields name a real calendar instant.
pub open spec fn systemtime_in_range(st: SystemTime) -> bool {
    &&& 1 <= st.month <= 12
    &&& 1 <= st.day <= spec_days_in_month(st.year as int, st.month as int)
    &&& st.hour < 24
    &&& st.minute < 60
    &&& st.second < 60
    &&& st.millisecond < 1000
}

/// The timestamp that in-range broken-down fields name.
pub open spec fn spec_systemtime_timestamp(st: SystemTime) -> Timestamp {
    Timestamp {
        year: st.year,
        month: st.month as u8,
        day: st.day as u8,
        hour: st.hour as u8,
        minute: st.minute as u8,
        second: st.second as u8,
        nanosecond: (st.millisecond * 1000000) as u32,
    }
}

/// Validated construction of a calendar timestamp from broken-down fields:
/// combinations that name no real instant (day 31 of a 30-day month, minute
/// 60) are refused, never clamped.
pub fn systemtime_to_timestamp(st: &SystemTime) -> (r: Result<Timestamp, TimeError>)
    ensures
        r is Ok <==> systemtime_in_range(*st),
        r matches Ok(ts) ==> ts == spec_systemtime_timestamp(*st) && timestamp_valid(ts),
        r is Err ==> r == Err::<Timestamp, TimeError>(TimeError::InvalidSystemTime),
{
    if 1 <= st.month && st.month <= 12 && 1 <= st.day && st.day as u32 <= days_in_month(
        st.year,
        st.month as u8,
    ) && st.hour < 24 && st.minute < 60 && st.second < 60 && st.millisecond < 1000 {
        Ok(
            Timestamp {
                year: st.year,
                month: st.month as u8,
                day: st.day as u8,
                hour: st.hour as u8,
                minute: st.minute as u8,
                second: st.second as u8,
                nanosecond: st.millisecond as u32 * 1000000,
            },
        )
    } else {
        Err(TimeError::InvalidSystemTime)
    }
}

/// An instant at or after 1970 lies at or after the Unix epoch.
pub proof fn lemma_unix_nanos_nonneg(ts: Timestamp)
    requires
        timestamp_valid(ts),
        ts.year >= 1970,
    ensures
        timestamp_unix_nanos(ts) >= 0,
{
    lemma_days_before_year_monotone(1970, ts.year as int);
    crate::calendar::lemma_days_before_month_bounded(ts.year as int, ts.month as int);
}

/// Tick-to-calendar round trip: a tick count in the convertible range,
/// carried to a calendar timestamp, names the instant whose tick count is
/// the original value, so converting back restores it exactly.
pub proof fn lemma_tick_calendar_roundtrip(ticks: u64, ts: Timestamp)
    requires
        EPOCH_DELTA_TICKS <= ticks <= EPOCH_DELTA_TICKS + MAX_UNIX_TICKS,
        timestamp_valid(ts),
        ts.year >= 1970,
        timestamp_unix_nanos(ts) == (ticks - EPOCH_DELTA_TICKS) * 100,
    ensures
        EPOCH_DELTA_TICKS + timestamp_unix_nanos(ts) / 100 == ticks,
{
    assert((ticks - EPOCH_DELTA_TICKS) * 100 / 100 == ticks - EPOCH_DELTA_TICKS);
}

} // verus!
