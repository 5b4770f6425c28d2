//! Lunar state from an instant: phase, age, distance phase, lunation number
//! and the named phase, computed exactly in integer nanoseconds.
pub mod consts;
pub mod moon;
pub mod orbit;

pub use consts::{
    DISTANCE_OFFSET_NANOS, DISTANCE_PERIOD_NANOS, EARTH_RADIUS_DECIMETERS, FRACTION_ONE,
    LUNATION_BASE_NANOS, NANOS_PER_DAY, NANOS_PER_SECOND, ORBIT_OFFSET_NANOS, ORBIT_PERIOD_NANOS,
    PHASE_COUNT, Phase, UNIX_EPOCH_JULIAN, phases,
};
pub use moon::Moon;
pub use orbit::{Timestamp, age, distance_phase, julian_date, lunation, phase};
