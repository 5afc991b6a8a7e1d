use vstd::prelude::*;
use crate::color::ColorSample;
use crate::config::Config;
use crate::pulse::PulseState;
use crate::temperature::Mood;

verus! {

/// Final duty values for the nine physical channels: three per eye and three
/// for the heart.
#[derive(Clone, Copy, PartialEq, Eq, Structural, Debug)]
pub struct DutySet {
    pub left_red: u16,
    pub left_green: u16,
    pub left_blue: u16,
    pub right_red: u16,
    pub right_green: u16,
    pub right_blue: u16,
    pub heart_red: u16,
    pub heart_green: u16,
    pub heart_blue: u16,
}

/// Whether the right eye is forced dark: only while the mood is Cold and the
/// suppression option is enabled.
pub open spec fn right_eye_dark(mood: Mood, cfg: Config) -> bool {
    cfg.suppress_eye_when_cold && mood == Mood::Cold
}

/// The duty set for one iteration.  The left eye always shows the color
/// sample; the right eye shows it too unless suppressed while Cold.  The
/// heart is mood-colored: Cold puts the bright flash on blue and the
/// afterglow on red, Warm the other way around; heart green is always zero.
pub open spec fn map_outputs_spec(
    color: ColorSample,
    pulse: PulseState,
    mood: Mood,
    cfg: Config,
) -> DutySet {
    DutySet {
        left_red: color.red,
        left_green: color.green,
        left_blue: color.blue,
        right_red: if right_eye_dark(mood, cfg) {
            0u16
        } else {
            color.red
        },
        right_green: if right_eye_dark(mood, cfg) {
            0u16
        } else {
            color.green
        },
        right_blue: if right_eye_dark(mood, cfg) {
            0u16
        } else {
            color.blue
        },
        heart_red: if mood == Mood::Cold {
            pulse.afterglow
        } else {
            pulse.bright
        },
        heart_green: 0u16,
        heart_blue: if mood == Mood::Cold {
            pulse.bright
        } else {
            pulse.afterglow
        },
    }
}

/// The per-iteration delay the mood selects: Cold pulses visibly slower.
pub open spec fn delay_for(mood: Mood, cfg: Config) -> u32 {
    if mood == Mood::Cold {
        cfg.delay_cold_ms
    } else {
        cfg.delay_warm_ms
    }
}

/// Combines mood, pulse amplitudes and color sample into the final
/// per-channel duty values.  Pure: the result is a function of the four
/// arguments alone.
pub fn map_outputs(color: ColorSample, pulse: PulseState, mood: Mood, cfg: &Config) -> (d: DutySet)
    ensures
        d == map_outputs_spec(color, pulse, mood, *cfg),
{
    let dark: bool = cfg.suppress_eye_when_cold && mood == Mood::Cold;
    let cold: bool = mood == Mood::Cold;
    DutySet {
        left_red: color.red,
        left_green: color.green,
        left_blue: color.blue,
        right_red: if dark { 0 } else { color.red },
        right_green: if dark { 0 } else { color.green },
        right_blue: if dark { 0 } else { color.blue },
        heart_red: if cold { pulse.afterglow } else { pulse.bright },
        heart_green: 0,
        heart_blue: if cold { pulse.bright } else { pulse.afterglow },
    }
}

/// The delay the control loop should block for after an iteration.
pub fn iteration_delay(mood: Mood, cfg: &Config) -> (ms: u32)
    ensures
        ms == delay_for(mood, *cfg),
{
    if mood == Mood::Cold {
        cfg.delay_cold_ms
    } else {
        cfg.delay_warm_ms
    }
}

/// The mapper has no hidden state: any two duty sets obtained from identical
/// inputs are identical.  Together with the contract of `map_outputs`, which
/// pins its result to `map_outputs_spec`, this says that calling the mapper
/// twice with the same inputs yields the same outputs.
pub proof fn lemma_mapper_deterministic(
    color: ColorSample,
    pulse: PulseState,
    mood: Mood,
    cfg: Config,
    d1: DutySet,
    d2: DutySet,
)
    requires
        d1 == map_outputs_spec(color, pulse, mood, cfg),
        d2 == map_outputs_spec(color, pulse, mood, cfg),
    ensures
        d1 == d2,
{
}

} // verus!
