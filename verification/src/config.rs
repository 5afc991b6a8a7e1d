use vstd::prelude::*;

verus! {

/// Tunable behaviour of the controller, gathered in one structure so that a
/// behavioural variant is a set of values here and never a second copy of the
/// control loop.
#[derive(Clone, Copy, Debug)]
pub struct Config {
    /// Celsius threshold: strictly below it the mood is Cold, at or above it
    /// Warm (no deadband).
    pub cold_threshold: u16,
    /// Ticks between temperature samples.
    pub sampling_period: u16,
    /// Ticks between heartbeat triggers.
    pub trigger_period: u16,
    /// Lead-in offset: the bright flash also fires on ticks where
    /// `tick + lead_in_offset` falls on the trigger cadence.
    pub lead_in_offset: u16,
    /// Amount subtracted from each pulse amplitude once per iteration.
    pub decay_step: u16,
    /// Hue sweep multiplier: how many full hue rotations one pass of the tick
    /// range produces.
    pub hue_sweep_multiplier: u16,
    /// Force one eye dark while the mood is Cold.
    pub suppress_eye_when_cold: bool,
    /// Per-iteration delay while the mood is Cold, in milliseconds.
    pub delay_cold_ms: u32,
    /// Per-iteration delay while the mood is Warm, in milliseconds.
    pub delay_warm_ms: u32,
}

impl Config {
    /// Both periods drive `mod` computations once per iteration, so neither
    /// may be zero.
    pub open spec fn wf(self) -> bool {
        &&& self.sampling_period > 0
        &&& self.trigger_period > 0
    }
}

} // verus!
