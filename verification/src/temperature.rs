use vstd::prelude::*;

verus! {

/// The visual mood chosen from the sampled temperature.
#[derive(Clone, Copy, PartialEq, Eq, Structural, Debug)]
pub enum Mood {
    Cold,
    Warm,
}

/// Celsius reading in tenths of a degree, as an exact fraction, before
/// rounding.  The sensor formula is
///
/// ```text
/// celsius = 27 - (raw * 3.3 / 4096 - 0.706) / 0.001721
/// ```
///
/// Put over a common denominator this is
/// `celsius * 10 = (7705262080 - 8250000 * raw) / 1762304`,
/// with `1762304 = 1024 * 1721`.  This function is the numerator.
pub open spec fn celsius_x10_num(raw: int) -> int {
    7705262080 - 8250000 * raw
}

/// Denominator of the tenths-of-a-degree fraction.
pub const CELSIUS_X10_DEN: u64 = 1762304;

/// Celsius reading in tenths of a degree, rounded to the nearest integer
/// with halves away from zero: `trunc(m/d + sign(m)/2)`, computed on the
/// doubled fraction so every division is on a non-negative operand.
pub open spec fn celsius_x10(raw: int) -> int {
    let m = celsius_x10_num(raw);
    if m >= 0 {
        (2 * m + CELSIUS_X10_DEN) / (2 * CELSIUS_X10_DEN as int)
    } else {
        -((-2 * m + CELSIUS_X10_DEN) / (2 * CELSIUS_X10_DEN as int))
    }
}

/// The whole-degree Celsius value the mood comparison uses.  The rounded
/// tenths value is carried as a 16-bit unsigned quantity, so a negative
/// reading wraps by 65536 before the final division by ten; only the
/// unsigned sub-range matters for the mood comparison.
pub open spec fn celsius_of(raw: int) -> int {
    let x10 = celsius_x10(raw);
    if x10 >= 0 {
        x10 / 10
    } else {
        (x10 + 65536) / 10
    }
}

/// Converts a raw sensor count (12-bit) into whole degrees Celsius by the
/// calibrated formula, with exact fixed-point arithmetic: tenths of a degree
/// are rounded to the nearest integer, halves away from zero, and the result
/// is truncated to whole degrees.
pub fn convert_to_celsius(raw_temp: u16) -> (celsius: u16)
    requires
        raw_temp < 4096,
    ensures
        celsius == celsius_of(raw_temp as int),
{
    let scaled: u64 = 8250000u64 * (raw_temp as u64);
    if scaled <= 7705262080u64 {
        let m: u64 = 7705262080u64 - scaled;
        let x10: u64 = (2 * m + CELSIUS_X10_DEN) / (2 * CELSIUS_X10_DEN);
        assert(x10 == celsius_x10(raw_temp as int));
        assert(x10 <= 4373) by {
            assert(2 * m + CELSIUS_X10_DEN <= 15412286464);
        }
        (x10 / 10) as u16
    } else {
        let neg_m: u64 = scaled - 7705262080u64;
        let x10_mag: u64 = (2 * neg_m + CELSIUS_X10_DEN) / (2 * CELSIUS_X10_DEN);
        assert(-(x10_mag as int) == celsius_x10(raw_temp as int));
        assert(x10_mag <= 14799) by {
            assert(2 * neg_m + CELSIUS_X10_DEN <= 52158738144);
        }
        if x10_mag == 0 {
            // A reading a hair below zero rounds to zero tenths, which does
            // not wrap.
            0
        } else {
            ((65536 - x10_mag) / 10) as u16
        }
    }
}

/// The mood a whole-degree Celsius value selects against a threshold.
pub open spec fn mood_of(celsius: int, threshold: int) -> Mood {
    if celsius < threshold {
        Mood::Cold
    } else {
        Mood::Warm
    }
}

/// Mood policy: strictly below the threshold is Cold, at or above it Warm.
pub fn mood_for_celsius(celsius: u16, threshold: u16) -> (m: Mood)
    ensures
        m == mood_of(celsius as int, threshold as int),
{
    if celsius < threshold {
        Mood::Cold
    } else {
        Mood::Warm
    }
}

/// The threshold value itself is classified Warm: there is no deadband, and
/// a reading exactly on the threshold never selects Cold.
pub proof fn lemma_threshold_is_warm(t: int)
    ensures
        mood_of(t, t) == Mood::Warm,
{
}

} // verus!
