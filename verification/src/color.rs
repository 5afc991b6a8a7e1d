use vstd::prelude::*;
use crate::config::Config;

verus! {

/// The tick counter runs in `[0, TICK_MODULUS)` and wraps to 0.
pub const TICK_MODULUS: u16 = 65500;

/// Red and green eye channels are capped here; blue uses the full 16-bit
/// range.  The caps reflect differing LED characteristics.
pub const RED_GREEN_CAP: u16 = 20000;

/// Full range of the blue eye channel.
pub const BLUE_CAP: u16 = 65535;

/// One color sample for an eye: per-channel intensities, red and green in
/// `[0, RED_GREEN_CAP]`, blue in `[0, BLUE_CAP]`.
#[derive(Clone, Copy, PartialEq, Eq, Structural, Debug)]
pub struct ColorSample {
    pub red: u16,
    pub green: u16,
    pub blue: u16,
}

/// Position of the hue on its six-sector wheel, scaled so that one sector is
/// 32750 units.  The hue angle is `tick / 65500 * 360 * k` degrees, so in
/// sectors of 60 degrees it is `3 * k * tick / 32750`, and the whole wheel is
/// `6 * 32750 = 196500` units around.
pub open spec fn hue_phase(tick: int, k: int) -> int {
    (3 * k * tick) % 196500
}

/// Intensity `frac/32750` of a channel whose full scale is `cap`, truncated
/// to an integer duty value.
pub open spec fn ramp(frac: int, cap: int) -> int {
    frac * cap / 32750
}

/// The color the hue sweep produces at a tick, with saturation and value both
/// at full scale: inside each sector one channel is full, one is zero, and
/// one ramps linearly with the position inside the sector.
pub open spec fn color_spec(tick: int, k: int) -> ColorSample {
    let phase = hue_phase(tick, k);
    let sector = phase / 32750;
    let rem = phase % 32750;
    if sector == 0 {
        ColorSample { red: RED_GREEN_CAP, green: ramp(rem, RED_GREEN_CAP as int) as u16, blue: 0 }
    } else if sector == 1 {
        ColorSample { red: ramp(32750 - rem, RED_GREEN_CAP as int) as u16, green: RED_GREEN_CAP, blue: 0 }
    } else if sector == 2 {
        ColorSample { red: 0, green: RED_GREEN_CAP, blue: ramp(rem, BLUE_CAP as int) as u16 }
    } else if sector == 3 {
        ColorSample { red: 0, green: ramp(32750 - rem, RED_GREEN_CAP as int) as u16, blue: BLUE_CAP }
    } else if sector == 4 {
        ColorSample { red: ramp(rem, RED_GREEN_CAP as int) as u16, green: 0, blue: BLUE_CAP }
    } else {
        ColorSample { red: RED_GREEN_CAP, green: 0, blue: ramp(32750 - rem, BLUE_CAP as int) as u16 }
    }
}

/// Computes the eye color for a tick: a cyclic hue sweep with
/// `hue = tick / 65500 * 360 * hue_sweep_multiplier` degrees at full
/// saturation and value, red and green scaled into `[0, RED_GREEN_CAP]` and
/// blue into `[0, BLUE_CAP]`.  Pure: the same tick always yields the same
/// sample.
pub fn color_sample(tick: u16, cfg: &Config) -> (c: ColorSample)
    ensures
        c == color_spec(tick as int, cfg.hue_sweep_multiplier as int),
        c.red <= RED_GREEN_CAP,
        c.green <= RED_GREEN_CAP,
{
    let k: u64 = cfg.hue_sweep_multiplier as u64;
    let t: u64 = tick as u64;
    assert(3 * k * t <= 3 * 65535 * 65535) by (nonlinear_arith)
        requires
            k <= 65535,
            t <= 65535,
    ;
    let phase: u64 = (3 * k * t) % 196500;
    let sector: u64 = phase / 32750;
    let rem: u64 = phase % 32750;
    let rise_rg: u16 = scale_ramp(rem, RED_GREEN_CAP);
    let fall_rg: u16 = scale_ramp(32750 - rem, RED_GREEN_CAP);
    let rise_b: u16 = scale_ramp(rem, BLUE_CAP);
    let fall_b: u16 = scale_ramp(32750 - rem, BLUE_CAP);
    if sector == 0 {
        ColorSample { red: RED_GREEN_CAP, green: rise_rg, blue: 0 }
    } else if sector == 1 {
        ColorSample { red: fall_rg, green: RED_GREEN_CAP, blue: 0 }
    } else if sector == 2 {
        ColorSample { red: 0, green: RED_GREEN_CAP, blue: rise_b }
    } else if sector == 3 {
        ColorSample { red: 0, green: fall_rg, blue: BLUE_CAP }
    } else if sector == 4 {
        ColorSample { red: rise_rg, green: 0, blue: BLUE_CAP }
    } else {
        ColorSample { red: RED_GREEN_CAP, green: 0, blue: fall_b }
    }
}

/// Truncated scaling of a sector fraction onto a channel's full scale.
fn scale_ramp(frac: u64, cap: u16) -> (v: u16)
    requires
        frac <= 32750,
    ensures
        v == ramp(frac as int, cap as int),
        v <= cap,
{
    assert(frac * (cap as u64) <= 32750 * (cap as u64) && 32750 * (cap as u64) <= 32750 * 65535)
        by (nonlinear_arith)
        requires
            frac <= 32750,
            cap <= 65535,
    ;
    let wide: u64 = frac * (cap as u64) / 32750;
    assert(wide <= cap) by {
        vstd::arithmetic::div_mod::lemma_div_is_ordered(
            frac as int * cap as int,
            32750 * cap as int,
            32750,
        );
        assert(32750 * cap as int / 32750 == cap as int) by (nonlinear_arith);
    }
    wide as u16
}

/// Wrap continuity: the hue sweep depends on the tick only through
/// `tick % 65500`, so the sample at the wrap point equals the sample at
/// tick 0 and the animation is seamless across the wrap.
pub proof fn lemma_color_wrap(tick: int, k: int)
    requires
        tick >= 0,
        k >= 0,
    ensures
        color_spec(tick, k) == color_spec(tick % (TICK_MODULUS as int), k),
{
    let q = tick / 65500;
    let r = tick % 65500;
    vstd::arithmetic::div_mod::lemma_fundamental_div_mod(tick, 65500);
    assert(3 * k * tick == 196500 * (k * q) + 3 * k * r) by (nonlinear_arith)
        requires
            tick == 65500 * q + r,
    ;
    vstd::arithmetic::div_mod::lemma_mod_multiples_vanish(k * q, 3 * k * r, 196500);
    assert(hue_phase(tick, k) == hue_phase(r, k));
}

} // verus!
