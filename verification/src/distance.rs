//! Converts an echo round-trip time into a distance reading.
//!
//! Distances are held in fixed point: every field of [`Unit`] counts
//! `1 / SCALE` of its own unit of measure. The sensor's conversion factor is
//! 0.0343 cm per microsecond of round-trip time, halved because the sound
//! travels to the object and back; at this scale that factor is the exact
//! integer [`CM_SCALED_PER_MICRO`], so every reading is exact.

use vstd::prelude::*;

verus! {

/// Fixed-point denominator: each field of `Unit` counts `1 / SCALE` of its
/// unit of measure, so `centimeters == 400 * SCALE` means 400 cm.
pub const SCALE: u64 = 2_000_000;

/// Scaled centimeters of one-way distance per microsecond of round-trip
/// time: 0.0343 cm/us, divided by 2 for the round trip, times `SCALE`.
pub const CM_SCALED_PER_MICRO: u64 = 343 * SCALE / 20_000;

/// Echoes shorter than this are trigger crosstalk, not reflections.
pub const MIN_ECHO_MICROS: u64 = 100;

/// Echoes longer than this mean nothing reflected within the sensor's
/// timeout.
pub const MAX_ECHO_MICROS: u64 = 18_000;

/// Readings below 2 cm are under the sensor's minimum reliable range.
pub const MIN_CM_SCALED: u64 = 2 * SCALE;

/// The sensor's maximum range, 400 cm, in each field's own scaled unit.
pub const MAX_RANGE_CM_SCALED: u64 = 400 * SCALE;

/// 4000 mm, scaled.
pub const MAX_RANGE_MM_SCALED: u64 = 4_000 * SCALE;

/// 40 dm, scaled.
pub const MAX_RANGE_DM_SCALED: u64 = 40 * SCALE;

/// 4 m, scaled.
pub const MAX_RANGE_M_SCALED: u64 = 4 * SCALE;

/// One physical distance expressed in four units of measure. Each field is
/// fixed point: it counts `1 / SCALE` of the unit its name gives.
#[derive(Clone, Copy, Debug, PartialEq, Eq, Structural)]
pub struct Unit {
    /// Scaled millimeters.
    pub millimeters: u64,
    /// Scaled centimeters; the canonical field.
    pub centimeters: u64,
    /// Scaled decimeters.
    pub decimeters: u64,
    /// Scaled meters.
    pub meters: u64,
}

/// The four fields agree on one physical distance: a millimeter count is ten
/// times a centimeter count, and so on down to meters.
pub open spec fn consistent(u: Unit) -> bool {
    &&& u.millimeters == 10 * u.centimeters
    &&& u.centimeters == 10 * u.decimeters
    &&& u.decimeters == 10 * u.meters
}

/// A reading the calculator can produce: consistent and within the sensor's
/// maximum range.
pub open spec fn well_formed(u: Unit) -> bool {
    &&& consistent(u)
    &&& u.centimeters <= MAX_RANGE_CM_SCALED
}

/// The reading meaning "no valid object closer than the minimum range".
pub open spec fn zero_reading() -> Unit {
    Unit { millimeters: 0, centimeters: 0, decimeters: 0, meters: 0 }
}

/// The reading meaning "at or beyond the maximum range":
/// 4000 mm / 400 cm / 40 dm / 4 m.
pub open spec fn max_range_reading() -> Unit {
    Unit {
        millimeters: MAX_RANGE_MM_SCALED,
        centimeters: MAX_RANGE_CM_SCALED,
        decimeters: MAX_RANGE_DM_SCALED,
        meters: MAX_RANGE_M_SCALED,
    }
}

/// The unclamped one-way distance for a round-trip time, in scaled
/// centimeters.
pub open spec fn raw_cm_scaled(micros: u64) -> int {
    micros * CM_SCALED_PER_MICRO
}

/// What the calculator returns for a round-trip time of `micros`
/// microseconds: out-of-window echoes clamp to the maximum range, distances
/// under 2 cm read as zero, distances over 400 cm clamp to the maximum
/// range, and anything else is the raw distance in all four units.
pub open spec fn speed_spec(micros: u64) -> Unit {
    if micros < MIN_ECHO_MICROS || micros > MAX_ECHO_MICROS {
        max_range_reading()
    } else if raw_cm_scaled(micros) < MIN_CM_SCALED {
        zero_reading()
    } else if raw_cm_scaled(micros) > MAX_RANGE_CM_SCALED {
        max_range_reading()
    } else {
        Unit {
            millimeters: (10 * raw_cm_scaled(micros)) as u64,
            centimeters: raw_cm_scaled(micros) as u64,
            decimeters: (raw_cm_scaled(micros) / 10) as u64,
            meters: (raw_cm_scaled(micros) / 100) as u64,
        }
    }
}

impl Unit {
    /// The zero reading.
    pub fn zero() -> (r: Unit)
        ensures
            r == zero_reading(),
    {
        Unit { millimeters: 0, centimeters: 0, decimeters: 0, meters: 0 }
    }

    /// The maximum-range reading.
    pub fn max_range() -> (r: Unit)
        ensures
            r == max_range_reading(),
    {
        Unit {
            millimeters: MAX_RANGE_MM_SCALED,
            centimeters: MAX_RANGE_CM_SCALED,
            decimeters: MAX_RANGE_DM_SCALED,
            meters: MAX_RANGE_M_SCALED,
        }
    }

    /// The whole centimeters of this reading, fraction discarded.
    pub fn centimeters_whole(&self) -> (r: u64)
        ensures
            r == self.centimeters / SCALE,
    {
        self.centimeters / SCALE
    }
}

/// Maps an echo round-trip time, in microseconds, to a distance reading.
/// Total and pure: every duration maps to exactly one reading.
pub fn calculate_speed(micros: u64) -> (r: Unit)
    ensures
        r == speed_spec(micros),
        well_formed(r),
        (micros < MIN_ECHO_MICROS || micros > MAX_ECHO_MICROS) ==> r == max_range_reading(),
        (MIN_ECHO_MICROS <= micros && micros <= MAX_ECHO_MICROS
            && raw_cm_scaled(micros) < MIN_CM_SCALED) ==> r == zero_reading(),
        (MIN_ECHO_MICROS <= micros && micros <= MAX_ECHO_MICROS
            && MIN_CM_SCALED <= raw_cm_scaled(micros)) ==> {
            &&& r.centimeters == raw_cm_scaled(micros)
            &&& r.millimeters == 10 * raw_cm_scaled(micros)
            &&& r.decimeters == raw_cm_scaled(micros) / 10
            &&& r.meters == raw_cm_scaled(micros) / 100
        },
{
    if micros < MIN_ECHO_MICROS || micros > MAX_ECHO_MICROS {
        return Unit::max_range();
    }
    assert(CM_SCALED_PER_MICRO == 34_300);
    let cm: u64 = micros * CM_SCALED_PER_MICRO;
    if cm < MIN_CM_SCALED {
        return Unit::zero();
    }
    if cm > MAX_RANGE_CM_SCALED {
        return Unit::max_range();
    }
    Unit { millimeters: 10 * cm, centimeters: cm, decimeters: cm / 10, meters: cm / 100 }
}

/// Law: an echo outside the valid window — shorter than 100 us or longer
/// than 18 ms — always reads as the maximum range.
pub proof fn lemma_out_of_window_clamps(micros: u64)
    requires
        micros < MIN_ECHO_MICROS || micros > MAX_ECHO_MICROS,
    ensures
        speed_spec(micros) == max_range_reading(),
{
}

/// Law: a raw distance under 2 cm, measured from an echo no shorter than
/// the crosstalk bound, reads as zero. (An echo under 100 us also yields a
/// raw distance under 2 cm, but the window clamp takes precedence there and
/// the reading is the maximum range instead.)
pub proof fn lemma_below_min_range_reads_zero(micros: u64)
    requires
        MIN_ECHO_MICROS <= micros,
        raw_cm_scaled(micros) < MIN_CM_SCALED,
    ensures
        speed_spec(micros) == zero_reading(),
{
    assert(CM_SCALED_PER_MICRO == 34_300);
    assert(micros <= MAX_ECHO_MICROS) by (nonlinear_arith)
        requires
            micros * 34_300 < 4_000_000;
}

/// Law: a raw distance beyond 400 cm always reads as the maximum range.
/// Such a distance needs an echo longer than 18 ms, so the window clamp
/// already yields the same reading.
pub proof fn lemma_beyond_max_range_clamps(micros: u64)
    requires
        raw_cm_scaled(micros) > MAX_RANGE_CM_SCALED,
    ensures
        speed_spec(micros) == max_range_reading(),
{
    assert(CM_SCALED_PER_MICRO == 34_300);
    assert(micros > MAX_ECHO_MICROS) by (nonlinear_arith)
        requires
            micros * 34_300 > 800_000_000;
}

/// Law: a raw distance within [2 cm, 400 cm], measured from an echo within
/// the valid window, is reported exactly, each field at its own scale.
pub proof fn lemma_in_range_reads_exact(micros: u64)
    requires
        MIN_ECHO_MICROS <= micros,
        micros <= MAX_ECHO_MICROS,
        MIN_CM_SCALED <= raw_cm_scaled(micros),
        raw_cm_scaled(micros) <= MAX_RANGE_CM_SCALED,
    ensures
        speed_spec(micros).centimeters == raw_cm_scaled(micros),
        speed_spec(micros).millimeters == 10 * raw_cm_scaled(micros),
        speed_spec(micros).decimeters == raw_cm_scaled(micros) / 10,
        speed_spec(micros).meters == raw_cm_scaled(micros) / 100,
{
    assert(CM_SCALED_PER_MICRO == 34_300);
}

/// Law: the reading is a function of the duration alone. Two readings
/// computed from the same duration are identical.
pub proof fn lemma_reading_idempotent(micros: u64, first: Unit, second: Unit)
    requires
        first == speed_spec(micros),
        second == speed_spec(micros),
    ensures
        first == second,
{
}

} // verus!
