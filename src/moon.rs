use vstd::prelude::*;

use crate::consts::{
    FRACTION_ONE, ORBIT_PERIOD_NANOS, PHASE_COUNT, in_phase, phase_emoji_at, phase_index,
    phase_name_at, phase_table_partitions, phases, phase_bound,
};
use crate::orbit::{
    Timestamp, age, age_of, distance_phase, distance_phase_of, julian_date, julian_date_of,
    lunation, lunation_of, phase, phase_of,
};

verus! {

/// The state of the moon at one instant.
#[derive(Debug, Clone, Copy, PartialEq, Eq, Structural)]
pub struct Moon {
    /// The Julian date, in nanoseconds since Julian date 0 (noon Universal
    /// Time, January 1, 4713 BC).
    pub julian_date: i128,
    /// Phase of the moon: the fraction of the synodic month gone, in `[0, 1)`,
    /// in units of 1 / FRACTION_ONE (0 is new moon, one half is full moon).
    pub phase: u64,
    /// Age of the moon: time since the last new moon, in nanoseconds.
    pub age: u64,
    /// The fraction of the anomalistic month gone, in `[0, 1)`, in units of
    /// 1 / FRACTION_ONE.
    pub distance_phase: u64,
    /// Lunation number.
    pub lunation: i64,
}

impl Moon {
    /// Whether this is the state of the moon at `time`.
    pub open spec fn describes(self, time: Timestamp) -> bool {
        let jd = julian_date_of(time);
        &&& self.julian_date == jd
        &&& self.phase == phase_of(jd)
        &&& self.age == age_of(jd)
        &&& self.distance_phase == distance_phase_of(jd)
        &&& self.lunation == lunation_of(jd)
    }

    /// The moon is waxing: its age is past half the synodic month.
    pub open spec fn spec_is_waxing(self) -> bool {
        2 * self.age > ORBIT_PERIOD_NANOS
    }

    /// The moon is waning: its age is short of half the synodic month.
    pub open spec fn spec_is_waning(self) -> bool {
        2 * self.age < ORBIT_PERIOD_NANOS
    }

    /// The state of the moon at `time`.
    pub fn new(time: Timestamp) -> (r: Moon)
        ensures
            r.describes(time),
            r.phase < FRACTION_ONE,
            r.distance_phase < FRACTION_ONE,
            r.age < ORBIT_PERIOD_NANOS,
            r.phase == r.age * (FRACTION_ONE as int) / (ORBIT_PERIOD_NANOS as int),
    {
        let julian_date = julian_date(time);
        Moon {
            julian_date,
            phase: phase(julian_date),
            age: age(julian_date),
            distance_phase: distance_phase(julian_date),
            lunation: lunation(julian_date),
        }
    }

    /// Checks if the moon is in the waning phase.
    pub fn is_waning(&self) -> (r: bool)
        ensures
            r == self.spec_is_waning(),
    {
        (self.age as i128) * 2 < ORBIT_PERIOD_NANOS
    }

    /// Checks if the moon is in the waxing phase.
    pub fn is_waxing(&self) -> (r: bool)
        ensures
            r == self.spec_is_waxing(),
    {
        (self.age as i128) * 2 > ORBIT_PERIOD_NANOS
    }

    /// Returns the name of the moon phase, or "Unknown" where the phase
    /// fraction is outside `[0, 1)`.
    pub fn phase_name(&self) -> (r: &'static str)
        ensures
            self.phase < FRACTION_ONE ==> r@ == phase_name_at(phase_index(self.phase as int)),
            self.phase >= FRACTION_ONE ==> r@ == "Unknown"@,
    {
        match lookup_phase(self.phase) {
            Some(entry) => entry.name,
            None => "Unknown",
        }
    }

    /// Returns the emoji of the moon phase, or "Unknown" where the phase
    /// fraction is outside `[0, 1)`.
    pub fn phase_emoji(&self) -> (r: &'static str)
        ensures
            self.phase < FRACTION_ONE ==> r@ == phase_emoji_at(phase_index(self.phase as int)),
            self.phase >= FRACTION_ONE ==> r@ == "Unknown"@,
    {
        match lookup_phase(self.phase) {
            Some(entry) => entry.emoji,
            None => "Unknown",
        }
    }
}

/// The entry of the phase table that `fraction` falls in, scanning the table
/// in order; `None` where it falls in none.
fn lookup_phase(fraction: u64) -> (r: Option<crate::consts::Phase>)
    ensures
        fraction < FRACTION_ONE ==> r.is_some() && {
            let i = phase_index(fraction as int);
            &&& r.unwrap().name@ == phase_name_at(i)
            &&& r.unwrap().emoji@ == phase_emoji_at(i)
        },
        fraction >= FRACTION_ONE ==> r.is_none(),
{
    let table = phases();
    proof {
        phase_table_partitions(fraction as int);
    }
    let mut i: usize = 0;
    while i < PHASE_COUNT
        invariant
            0 <= i <= PHASE_COUNT,
            forall|j: int| 0 <= j < i ==> !in_phase(j, fraction as int),
            forall|j: int|
                0 <= j < PHASE_COUNT ==> {
                    &&& (#[trigger] table[j]).start == phase_bound(j)
                    &&& table[j].end == phase_bound(j + 1)
                    &&& table[j].name@ == phase_name_at(j)
                    &&& table[j].emoji@ == phase_emoji_at(j)
                },
            forall|a: int, b: int|
                in_phase(a, fraction as int) && in_phase(b, fraction as int) ==> a == b,
            fraction < FRACTION_ONE ==> in_phase(phase_index(fraction as int), fraction as int),
            fraction >= FRACTION_ONE ==> forall|a: int| !in_phase(a, fraction as int),
        decreases PHASE_COUNT - i,
    {
        let entry = table[i];
        if entry.start <= fraction && fraction < entry.end {
            assert(in_phase(i as int, fraction as int));
            return Some(entry);
        }
        i += 1;
    }
    None
}

/// The state of the moon is a function of the instant: two states computed
/// for the same instant are identical.
pub proof fn same_instant_same_state(a: Moon, b: Moon, time: Timestamp)
    requires
        a.describes(time),
        b.describes(time),
    ensures
        a == b,
{
}

/// At exactly half a synodic month the moon is neither waxing nor waning.
pub proof fn half_month_neither_waxing_nor_waning(m: Moon)
    requires
        2 * m.age == ORBIT_PERIOD_NANOS,
    ensures
        !m.spec_is_waxing(),
        !m.spec_is_waning(),
{
}

/// For a positive divisor and a dividend of zero or more, the rounded-down
/// quotient reaches `k` exactly when the dividend reaches `k` times the divisor.
proof fn floor_div_reaches(x: int, d: int, k: int)
    requires
        x >= 0,
        d > 0,
    ensures
        x / d >= k <==> x >= k * d,
{
    vstd::arithmetic::div_mod::lemma_fundamental_div_mod(x, d);
    vstd::arithmetic::div_mod::lemma_mod_pos_bound(x, d);
    let q = x / d;
    assert(x == d * q + x % d);
    assert(0 <= x % d < d);
    if q >= k {
        assert(d * q >= k * d) by (nonlinear_arith)
            requires
                q >= k,
                d > 0,
        ;
    } else {
        assert(d * q <= k * d - d) by (nonlinear_arith)
            requires
                q <= k - 1,
                d > 0,
        ;
    }
}

/// Rounding the phase down to a fixed-point fraction never moves an instant
/// across a phase boundary: the stored phase falls in table entry `i` exactly
/// when the true fraction `age / ORBIT_PERIOD` lies in that entry's
/// `[start, end)`.
pub proof fn stored_phase_classifies_exactly(m: Moon, time: Timestamp, i: int)
    requires
        m.describes(time),
    ensures
        in_phase(i, m.phase as int) <==> {
            &&& 0 <= i < PHASE_COUNT
            &&& phase_bound(i) * ORBIT_PERIOD_NANOS <= m.age * FRACTION_ONE
            &&& m.age * FRACTION_ONE < phase_bound(i + 1) * ORBIT_PERIOD_NANOS
        },
{
    let x = m.age * FRACTION_ONE;
    assert(m.phase == x / (ORBIT_PERIOD_NANOS as int));
    floor_div_reaches(x, ORBIT_PERIOD_NANOS as int, phase_bound(i));
    floor_div_reaches(x, ORBIT_PERIOD_NANOS as int, phase_bound(i + 1));
}

} // verus!
