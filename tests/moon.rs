use lunar::{
    FRACTION_ONE, Moon, ORBIT_OFFSET_NANOS, ORBIT_PERIOD_NANOS, PHASE_COUNT, Timestamp,
    UNIX_EPOCH_JULIAN, age, distance_phase, julian_date, lunation, phase, phases,
};

/// Unix time of Julian date 2451550.26, the reference new moon.
const REFERENCE_NEW_MOON: i64 = 947_182_464;

#[test]
fn julian_date_of_unix_epoch() {
    assert_eq!(julian_date(Timestamp::new(0, 0)), UNIX_EPOCH_JULIAN);
    assert_eq!(UNIX_EPOCH_JULIAN, 2_440_587 * 86_400_000_000_000 + 43_200_000_000_000);
}

#[test]
fn julian_date_before_epoch_is_earlier() {
    let before = julian_date(Timestamp::new(-1, 500_000_000));
    assert_eq!(before, UNIX_EPOCH_JULIAN - 500_000_000);
    let day_before = julian_date(Timestamp::new(-86_400, 0));
    assert_eq!(day_before, UNIX_EPOCH_JULIAN - 86_400_000_000_000);
    assert!(day_before < before);
}

#[test]
fn reference_new_moon() {
    let m = Moon::new(Timestamp::new(REFERENCE_NEW_MOON, 0));
    assert_eq!(m.julian_date, ORBIT_OFFSET_NANOS);
    assert_eq!(m.phase, 0);
    assert_eq!(m.age, 0);
    assert_eq!(m.phase_name(), "New Moon");
    assert_eq!(m.phase_emoji(), "🌑");
    assert_eq!(m.lunation, 953);
}

#[test]
fn phase_at_unix_epoch_is_normalised() {
    let m = Moon::new(Timestamp::new(0, 0));
    assert_eq!(m.phase, 765_938_922_993_672_482);
    assert_eq!(m.age, 1_954_249_333_291_008);
    assert_eq!(m.distance_phase, 710_060_668_935_158_813);
    assert_eq!(m.lunation, 581);
    assert_eq!(m.phase_name(), "Last Quarter");
    assert_eq!(m.phase_emoji(), "🌗");
}

#[test]
fn known_recent_instant() {
    let m = Moon::new(Timestamp::new(1_700_000_000, 0));
    assert_eq!(m.phase, 55_622_080_504_870_641);
    assert_eq!(m.age, 141_916_555_589_120);
    assert_eq!(m.distance_phase, 781_820_563_926_625_315);
    assert_eq!(m.lunation, 1248);
    assert_eq!(m.phase_name(), "Waxing Crescent");
    assert_eq!(m.phase_emoji(), "🌒");
    assert!(m.is_waning());
    assert!(!m.is_waxing());
}

#[test]
fn lunation_before_base_is_negative() {
    let m = Moon::new(Timestamp::new(-3_153_600_000, 0));
    assert_eq!(m.lunation, -655);
    assert_eq!(m.phase, 759_383_155_036_428_652);
}

#[test]
fn lunation_counts_from_one_at_base() {
    let base = lunar::LUNATION_BASE_NANOS;
    assert_eq!(lunation(base), 1);
    assert_eq!(lunation(base - 1), 0);
    assert_eq!(lunation(base + ORBIT_PERIOD_NANOS), 2);
    assert_eq!(lunation(base + ORBIT_PERIOD_NANOS - 1), 1);
}

#[test]
fn phase_and_distance_phase_in_unit_interval() {
    let dates = [
        0i128,
        -1,
        UNIX_EPOCH_JULIAN,
        ORBIT_OFFSET_NANOS - 1,
        ORBIT_OFFSET_NANOS,
        lunar::DISTANCE_OFFSET_NANOS - 1,
        -1_000_000_000_000_000_000_000_000_000_000,
        1_000_000_000_000_000_000_000_000_000_000,
    ];
    for jd in dates {
        assert!(phase(jd) < FRACTION_ONE);
        assert!(distance_phase(jd) < FRACTION_ONE);
        assert!((age(jd) as i128) < ORBIT_PERIOD_NANOS);
    }
    assert_eq!(phase(ORBIT_OFFSET_NANOS - 1), (FRACTION_ONE as u128 * (ORBIT_PERIOD_NANOS as u128 - 1) / ORBIT_PERIOD_NANOS as u128) as u64);
    assert_eq!(distance_phase(lunar::DISTANCE_OFFSET_NANOS), 0);
    assert_eq!(age(ORBIT_OFFSET_NANOS + ORBIT_PERIOD_NANOS + 7), 7);
}

#[test]
fn same_instant_same_state() {
    let t = Timestamp::new(1_234_567_890, 123_456_789);
    assert_eq!(Moon::new(t), Moon::new(t));
}

#[test]
fn half_month_is_neither_waxing_nor_waning() {
    let m = Moon::new(Timestamp::new(948_458_185, 388_888_832));
    assert_eq!(m.age as i128 * 2, ORBIT_PERIOD_NANOS);
    assert_eq!(m.phase, FRACTION_ONE / 2);
    assert!(!m.is_waxing());
    assert!(!m.is_waning());
    assert_eq!(m.phase_name(), "Full Moon");
}

#[test]
fn just_past_half_month_is_waxing() {
    let m = Moon::new(Timestamp::new(948_458_185, 388_888_833));
    assert!(m.is_waxing());
    assert!(!m.is_waning());
    let n = Moon::new(Timestamp::new(948_458_185, 388_888_831));
    assert!(n.is_waning());
    assert!(!n.is_waxing());
}

fn with_phase(phase: u64) -> Moon {
    Moon { julian_date: 0, phase, age: 0, distance_phase: 0, lunation: 0 }
}

#[test]
fn phase_boundaries_low_inclusive_high_exclusive() {
    let hundredth = FRACTION_ONE / 100;
    assert_eq!(with_phase(2 * hundredth - 1).phase_name(), "New Moon");
    assert_eq!(with_phase(2 * hundredth).phase_name(), "Waxing Crescent");
    assert_eq!(with_phase(22 * hundredth).phase_name(), "First Quarter");
    assert_eq!(with_phase(27 * hundredth).phase_name(), "Waxing Gibbous");
    assert_eq!(with_phase(47 * hundredth).phase_name(), "Full Moon");
    assert_eq!(with_phase(52 * hundredth).phase_name(), "Waning Gibbous");
    assert_eq!(with_phase(72 * hundredth).phase_name(), "Last Quarter");
    assert_eq!(with_phase(77 * hundredth).phase_name(), "Waning Crescent");
    assert_eq!(with_phase(FRACTION_ONE - 1).phase_name(), "Waning Crescent");
    assert_eq!(with_phase(FRACTION_ONE - 1).phase_emoji(), "🌘");
}

#[test]
fn phase_outside_unit_interval_is_unknown() {
    assert_eq!(with_phase(FRACTION_ONE).phase_name(), "Unknown");
    assert_eq!(with_phase(FRACTION_ONE).phase_emoji(), "Unknown");
    assert_eq!(with_phase(u64::MAX).phase_name(), "Unknown");
}

#[test]
fn every_fraction_maps_to_one_phase() {
    let table = phases();
    assert_eq!(table.len(), PHASE_COUNT);
    assert_eq!(table[0].start, 0);
    assert_eq!(table[PHASE_COUNT - 1].end, FRACTION_ONE);
    for i in 1..PHASE_COUNT {
        assert_eq!(table[i - 1].end, table[i].start);
        assert!(table[i].start < table[i].end);
    }
    let step = FRACTION_ONE / 1000;
    for k in 0..1000u64 {
        let f = k * step;
        let hits = table.iter().filter(|p| p.start <= f && f < p.end).count();
        assert_eq!(hits, 1);
        let name = with_phase(f).phase_name();
        assert!(table.iter().any(|p| p.name == name && p.start <= f && f < p.end));
    }
}

#[test]
fn phase_table_names_and_emojis() {
    let table = phases();
    let names: Vec<&str> = table.iter().map(|p| p.name).collect();
    assert_eq!(
        names,
        vec![
            "New Moon",
            "Waxing Crescent",
            "First Quarter",
            "Waxing Gibbous",
            "Full Moon",
            "Waning Gibbous",
            "Last Quarter",
            "Waning Crescent"
        ]
    );
    let emojis: Vec<&str> = table.iter().map(|p| p.emoji).collect();
    assert_eq!(emojis, vec!["🌑", "🌒", "🌓", "🌔", "🌕", "🌖", "🌗", "🌘"]);
}
