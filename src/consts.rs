use vstd::prelude::*;

verus! {

/// Nanoseconds in one second.
pub const NANOS_PER_SECOND: i128 = 1_000_000_000;

/// Nanoseconds in one day.
pub const NANOS_PER_DAY: i128 = 86_400_000_000_000;

/// Julian date 2440587.5 (the Unix epoch), in nanoseconds since Julian date 0.
pub const UNIX_EPOCH_JULIAN: i128 = 210_866_760_000_000_000_000;

/// The period of the lunar orbit (synodic month), 29.53058770576 days, in nanoseconds.
pub const ORBIT_PERIOD_NANOS: i128 = 2_551_442_777_777_664;

/// The offset for the lunar orbit calculations, Julian date 2451550.26
/// (a reference new moon), in nanoseconds since Julian date 0.
pub const ORBIT_OFFSET_NANOS: i128 = 211_813_942_464_000_000_000;

/// The period of the lunar distance (anomalistic month), 27.55454988 days, in nanoseconds.
pub const DISTANCE_PERIOD_NANOS: i128 = 2_380_713_109_632_000;

/// The offset for the lunar distance calculations, Julian date 2451562.2,
/// in nanoseconds since Julian date 0.
pub const DISTANCE_OFFSET_NANOS: i128 = 211_814_974_080_000_000_000;

/// The base for counting lunations, Julian date 2423436.6115277777 (the first
/// reference new moon), in nanoseconds since Julian date 0.
pub const LUNATION_BASE_NANOS: i128 = 209_384_923_235_999_993_280;

/// The mean radius of the Earth, 6371.0084 km, in units of 0.1 m.
pub const EARTH_RADIUS_DECIMETERS: u64 = 63_710_084;

/// The fixed-point value of the fraction 1: fractions of a cycle are held as
/// integers in units of 1 / FRACTION_ONE.
pub const FRACTION_ONE: u64 = 1_000_000_000_000_000_000;

/// Number of entries in the phase table.
pub const PHASE_COUNT: usize = 8;

/// Each constant in nanoseconds is exactly its value in days, as given in
/// decimal, times the length of a day.
pub proof fn constants_in_days()
    ensures
        UNIX_EPOCH_JULIAN * 10 == 24405875 * NANOS_PER_DAY,
        ORBIT_PERIOD_NANOS * 100_000_000_000 == 2953058770576 * NANOS_PER_DAY,
        ORBIT_OFFSET_NANOS * 100 == 245155026 * NANOS_PER_DAY,
        DISTANCE_PERIOD_NANOS * 100_000_000 == 2755454988 * NANOS_PER_DAY,
        DISTANCE_OFFSET_NANOS * 10 == 24515622 * NANOS_PER_DAY,
        LUNATION_BASE_NANOS * 10_000_000_000 == 24234366115277777 * NANOS_PER_DAY,
        NANOS_PER_DAY == 86400 * NANOS_PER_SECOND,
{
}

/// A named lunar phase: the fractions of the synodic month in
/// `[start, end)`, in units of 1 / FRACTION_ONE.
#[derive(Debug, Clone, Copy)]
pub struct Phase {
    /// Name of the lunar phase.
    pub name: &'static str,
    /// Emoji representing the lunar phase.
    pub emoji: &'static str,
    /// Start fraction of the lunar phase (inclusive).
    pub start: u64,
    /// End fraction of the lunar phase (exclusive).
    pub end: u64,
}

/// The boundaries of the phase table: entry `i` covers
/// `[phase_bound(i), phase_bound(i + 1))`.
pub open spec fn phase_bound(i: int) -> int {
    if i <= 0 {
        0
    } else if i == 1 {
        20_000_000_000_000_000
    } else if i == 2 {
        220_000_000_000_000_000
    } else if i == 3 {
        270_000_000_000_000_000
    } else if i == 4 {
        470_000_000_000_000_000
    } else if i == 5 {
        520_000_000_000_000_000
    } else if i == 6 {
        720_000_000_000_000_000
    } else if i == 7 {
        770_000_000_000_000_000
    } else {
        FRACTION_ONE as int
    }
}

/// The name of table entry `i`.
pub open spec fn phase_name_at(i: int) -> Seq<char> {
    if i == 0 {
        "New Moon"@
    } else if i == 1 {
        "Waxing Crescent"@
    } else if i == 2 {
        "First Quarter"@
    } else if i == 3 {
        "Waxing Gibbous"@
    } else if i == 4 {
        "Full Moon"@
    } else if i == 5 {
        "Waning Gibbous"@
    } else if i == 6 {
        "Last Quarter"@
    } else {
        "Waning Crescent"@
    }
}

/// The emoji of table entry `i`.
pub open spec fn phase_emoji_at(i: int) -> Seq<char> {
    if i == 0 {
        "\u{1F311}"@
    } else if i == 1 {
        "\u{1F312}"@
    } else if i == 2 {
        "\u{1F313}"@
    } else if i == 3 {
        "\u{1F314}"@
    } else if i == 4 {
        "\u{1F315}"@
    } else if i == 5 {
        "\u{1F316}"@
    } else if i == 6 {
        "\u{1F317}"@
    } else {
        "\u{1F318}"@
    }
}

/// Whether fraction `f` falls in table entry `i`: low bound inclusive, high
/// bound exclusive.
pub open spec fn in_phase(i: int, f: int) -> bool {
    0 <= i < PHASE_COUNT && phase_bound(i) <= f < phase_bound(i + 1)
}

/// The table entry that fraction `f` falls in.
pub open spec fn phase_index(f: int) -> int {
    choose|i: int| in_phase(i, f)
}

/// Every fraction in `[0, 1)` falls in exactly one entry of the phase table,
/// and no fraction outside it falls in any.
pub proof fn phase_table_partitions(f: int)
    ensures
        0 <= f < FRACTION_ONE ==> in_phase(phase_index(f), f),
        forall|i: int, j: int| in_phase(i, f) && in_phase(j, f) ==> i == j,
        !(0 <= f < FRACTION_ONE) ==> forall|i: int| !in_phase(i, f),
{
    if 0 <= f < FRACTION_ONE {
        let k: int = if f < phase_bound(1) {
            0
        } else if f < phase_bound(2) {
            1
        } else if f < phase_bound(3) {
            2
        } else if f < phase_bound(4) {
            3
        } else if f < phase_bound(5) {
            4
        } else if f < phase_bound(6) {
            5
        } else if f < phase_bound(7) {
            6
        } else {
            7
        };
        assert(in_phase(k, f));
    }
    assert forall|i: int, j: int| in_phase(i, f) && in_phase(j, f) implies i == j by {
        if i < j {
            assert(phase_bound(i + 1) <= phase_bound(j));
        } else if j < i {
            assert(phase_bound(j + 1) <= phase_bound(i));
        }
    }
}

/// The ordered table of the eight named lunar phases.
pub fn phases() -> (r: [Phase; PHASE_COUNT])
    ensures
        forall|i: int|
            0 <= i < PHASE_COUNT ==> {
                &&& (#[trigger] r[i]).start == phase_bound(i)
                &&& r[i].end == phase_bound(i + 1)
                &&& r[i].name@ == phase_name_at(i)
                &&& r[i].emoji@ == phase_emoji_at(i)
            },
{
    [
        Phase { name: "New Moon", emoji: "\u{1F311}", start: 0, end: 20_000_000_000_000_000 },
        Phase {
            name: "Waxing Crescent",
            emoji: "\u{1F312}",
            start: 20_000_000_000_000_000,
            end: 220_000_000_000_000_000,
        },
        Phase {
            name: "First Quarter",
            emoji: "\u{1F313}",
            start: 220_000_000_000_000_000,
            end: 270_000_000_000_000_000,
        },
        Phase {
            name: "Waxing Gibbous",
            emoji: "\u{1F314}",
            start: 270_000_000_000_000_000,
            end: 470_000_000_000_000_000,
        },
        Phase {
            name: "Full Moon",
            emoji: "\u{1F315}",
            start: 470_000_000_000_000_000,
            end: 520_000_000_000_000_000,
        },
        Phase {
            name: "Waning Gibbous",
            emoji: "\u{1F316}",
            start: 520_000_000_000_000_000,
            end: 720_000_000_000_000_000,
        },
        Phase {
            name: "Last Quarter",
            emoji: "\u{1F317}",
            start: 720_000_000_000_000_000,
            end: 770_000_000_000_000_000,
        },
        Phase {
            name: "Waning Crescent",
            emoji: "\u{1F318}",
            start: 770_000_000_000_000_000,
            end: FRACTION_ONE,
        },
    ]
}

} // verus!
