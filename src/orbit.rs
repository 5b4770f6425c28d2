use vstd::prelude::*;

use crate::consts::{
    DISTANCE_OFFSET_NANOS, DISTANCE_PERIOD_NANOS, FRACTION_ONE, LUNATION_BASE_NANOS,
    NANOS_PER_SECOND, ORBIT_OFFSET_NANOS, ORBIT_PERIOD_NANOS, UNIX_EPOCH_JULIAN,
};

verus! {

/// A point in time: signed seconds since the Unix epoch plus a sub-second
/// part. Instants before the epoch have negative `seconds`.
#[derive(Debug, Clone, Copy, PartialEq, Eq, Structural)]
pub struct Timestamp {
    /// Whole seconds since 1970-01-01T00:00:00Z; negative before it.
    pub seconds: i64,
    /// Nanoseconds added to `seconds`.
    pub nanos: u32,
}

impl Timestamp {
    /// The instant as signed nanoseconds since the Unix epoch.
    pub open spec fn total_nanos(self) -> int {
        self.seconds * NANOS_PER_SECOND + self.nanos
    }

    /// A timestamp of `seconds` and `nanos` past the epoch.
    pub fn new(seconds: i64, nanos: u32) -> (r: Timestamp)
        ensures
            r.seconds == seconds,
            r.nanos == nanos,
    {
        Timestamp { seconds, nanos }
    }
}

/// The largest magnitude of a Julian date, in nanoseconds, that the orbit
/// functions take (about 3 * 10^13 years, beyond any `Timestamp`).
pub const JULIAN_DATE_LIMIT: i128 = 1_000_000_000_000_000_000_000_000_000_000;

/// Julian dates, in nanoseconds since Julian date 0, that the orbit functions
/// take.
pub open spec fn julian_date_in_range(jd: int) -> bool {
    -JULIAN_DATE_LIMIT <= jd <= JULIAN_DATE_LIMIT
}

/// The Julian date of an instant, in nanoseconds since Julian date 0:
/// `JD = seconds / 86400 + 2440587.5` days, with signed seconds.
pub open spec fn julian_date_of(time: Timestamp) -> int {
    time.total_nanos() + UNIX_EPOCH_JULIAN
}

/// How far `elapsed` lies into the current cycle of length `period`, in
/// `[0, period)`.
pub open spec fn cycle_offset(elapsed: int, period: int) -> int {
    elapsed % period
}

/// The fraction of the current cycle, in units of 1 / FRACTION_ONE, rounded
/// down.
pub open spec fn cycle_fraction(elapsed: int, period: int) -> int {
    cycle_offset(elapsed, period) * FRACTION_ONE / period
}

/// Days into the synodic month at Julian date `jd`, in nanoseconds.
pub open spec fn age_of(jd: int) -> int {
    cycle_offset(jd - ORBIT_OFFSET_NANOS, ORBIT_PERIOD_NANOS as int)
}

/// The orbital phase at Julian date `jd`:
/// `fract((JD - ORBIT_OFFSET) / ORBIT_PERIOD)`, in units of 1 / FRACTION_ONE.
pub open spec fn phase_of(jd: int) -> int {
    cycle_fraction(jd - ORBIT_OFFSET_NANOS, ORBIT_PERIOD_NANOS as int)
}

/// The distance phase at Julian date `jd`:
/// `fract((JD - DISTANCE_OFFSET) / DISTANCE_PERIOD)`, in units of 1 / FRACTION_ONE.
pub open spec fn distance_phase_of(jd: int) -> int {
    cycle_fraction(jd - DISTANCE_OFFSET_NANOS, DISTANCE_PERIOD_NANOS as int)
}

/// The lunation number at Julian date `jd`:
/// `floor(1 + (JD - LUNATION_BASE) / ORBIT_PERIOD)`.
pub open spec fn lunation_of(jd: int) -> int {
    1 + (jd - LUNATION_BASE_NANOS) / (ORBIT_PERIOD_NANOS as int)
}

/// The Julian date of `time`, in nanoseconds since Julian date 0.
pub fn julian_date(time: Timestamp) -> (r: i128)
    ensures
        r == julian_date_of(time),
        julian_date_in_range(r as int),
{
    time.seconds as i128 * NANOS_PER_SECOND + time.nanos as i128 + UNIX_EPOCH_JULIAN
}

/// The offset of `elapsed` into a cycle of length `period`, normalised into
/// `[0, period)` also where `elapsed` is negative.
fn cycle_offset_of(elapsed: i128, period: i128) -> (r: i128)
    requires
        period > 0,
    ensures
        r == cycle_offset(elapsed as int, period as int),
        0 <= r < period,
{
    match elapsed.checked_rem_euclid(period) {
        Some(r) => r,
        None => 0,
    }
}

/// The offset `offset` into a cycle of length `period` as a fraction of the
/// cycle, in units of 1 / FRACTION_ONE, rounded down. The bound on `period`
/// keeps the scaled offset within `u128`.
fn fraction_of_cycle(offset: i128, period: i128) -> (r: u64)
    requires
        0 <= offset < period,
        period <= 100_000_000_000_000_000_000,
    ensures
        r == offset * (FRACTION_ONE as int) / (period as int),
        r < FRACTION_ONE,
{
    proof {
        assert(offset * FRACTION_ONE <= 100_000_000_000_000_000_000 * (FRACTION_ONE as int))
            by (nonlinear_arith)
            requires
                0 <= offset <= 100_000_000_000_000_000_000int,
        ;
        assert(offset * FRACTION_ONE < period * (FRACTION_ONE as int)) by (nonlinear_arith)
            requires
                0 <= offset < period,
        ;
        assert(offset * FRACTION_ONE / (period as int) < FRACTION_ONE) by (nonlinear_arith)
            requires
                0 <= offset < period,
                offset * FRACTION_ONE < period * (FRACTION_ONE as int),
        ;
    }
    let scaled: u128 = offset as u128 * FRACTION_ONE as u128;
    (scaled / period as u128) as u64
}

/// The orbital phase at Julian date `jd` (nanoseconds since Julian date 0),
/// as a fraction in `[0, 1)` in units of 1 / FRACTION_ONE.
pub fn phase(jd: i128) -> (r: u64)
    requires
        julian_date_in_range(jd as int),
    ensures
        r == phase_of(jd as int),
        r < FRACTION_ONE,
{
    let offset = cycle_offset_of(jd - ORBIT_OFFSET_NANOS, ORBIT_PERIOD_NANOS);
    fraction_of_cycle(offset, ORBIT_PERIOD_NANOS)
}

/// Days into the synodic month at Julian date `jd`, in nanoseconds, in
/// `[0, ORBIT_PERIOD_NANOS)`.
pub fn age(jd: i128) -> (r: u64)
    requires
        julian_date_in_range(jd as int),
    ensures
        r == age_of(jd as int),
        r < ORBIT_PERIOD_NANOS,
{
    cycle_offset_of(jd - ORBIT_OFFSET_NANOS, ORBIT_PERIOD_NANOS) as u64
}

/// The distance phase at Julian date `jd` (nanoseconds since Julian date 0),
/// as a fraction in `[0, 1)` in units of 1 / FRACTION_ONE.
pub fn distance_phase(jd: i128) -> (r: u64)
    requires
        julian_date_in_range(jd as int),
    ensures
        r == distance_phase_of(jd as int),
        r < FRACTION_ONE,
{
    let offset = cycle_offset_of(jd - DISTANCE_OFFSET_NANOS, DISTANCE_PERIOD_NANOS);
    fraction_of_cycle(offset, DISTANCE_PERIOD_NANOS)
}

/// The lunation number at Julian date `jd`: the count of synodic months
/// begun since the base new moon. It is zero or negative before it.
pub fn lunation(jd: i128) -> (r: i64)
    requires
        julian_date_in_range(jd as int),
    ensures
        r == lunation_of(jd as int),
{
    let months: i128 = match (jd - LUNATION_BASE_NANOS).checked_div_euclid(ORBIT_PERIOD_NANOS) {
        Some(q) => q,
        None => 0,
    };
    proof {
        let e = jd - LUNATION_BASE_NANOS;
        vstd::arithmetic::div_mod::lemma_fundamental_div_mod(e, ORBIT_PERIOD_NANOS as int);
        assert(0 <= e % (ORBIT_PERIOD_NANOS as int) < ORBIT_PERIOD_NANOS);
    }
    (1 + months) as i64
}

} // verus!
