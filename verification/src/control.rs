use vstd::prelude::*;
use crate::color::color_sample;
use crate::color::color_spec;
use crate::color::ColorSample;
use crate::color::TICK_MODULUS;
use crate::config::Config;
use crate::mapper::delay_for;
use crate::mapper::iteration_delay;
use crate::mapper::map_outputs;
use crate::mapper::map_outputs_spec;
use crate::mapper::DutySet;
use crate::pulse::pulse_step;
use crate::pulse::PulseState;
use crate::temperature::celsius_of;
use crate::temperature::convert_to_celsius;
use crate::temperature::mood_for_celsius;
use crate::temperature::mood_of;
use crate::temperature::Mood;

verus! {

/// The cross-iteration state the control loop owns: the tick counter, the
/// pulse amplitudes, and the mood chosen at the last sampling boundary.
#[derive(Clone, Copy, PartialEq, Eq, Structural, Debug)]
pub struct ControlState {
    pub tick: u16,
    pub pulse: PulseState,
    pub mood: Mood,
}

/// What one iteration asks of the outside world: the duty value for each of
/// the nine channels, and how long to block before the next iteration.
#[derive(Clone, Copy, PartialEq, Eq, Structural, Debug)]
pub struct StepOutput {
    pub duties: DutySet,
    pub delay_ms: u32,
}

/// Whether this iteration sits on a sampling boundary, where the temperature
/// source must be read.
pub open spec fn needs_sample_spec(s: ControlState, cfg: Config) -> bool {
    s.tick as int % (cfg.sampling_period as int) == 0
}

/// The tick counter advances by one and wraps to 0 at the bound.
pub open spec fn next_tick(t: u16) -> u16 {
    if t + 1 >= TICK_MODULUS {
        0u16
    } else {
        (t + 1) as u16
    }
}

/// The mood after an iteration: on a sampling boundary it is recomputed from
/// the raw reading through the calibrated conversion and the threshold;
/// between samples it is held unchanged.
pub open spec fn step_mood(s: ControlState, sample: Option<u16>, cfg: Config) -> Mood {
    if needs_sample_spec(s, cfg) {
        mood_of(celsius_of(sample->0 as int), cfg.cold_threshold as int)
    } else {
        s.mood
    }
}

/// The loop state after one iteration.
pub open spec fn step_state_spec(s: ControlState, sample: Option<u16>, cfg: Config) -> ControlState {
    ControlState {
        tick: next_tick(s.tick),
        pulse: pulse_step(s.pulse, s.tick as int, cfg),
        mood: step_mood(s, sample, cfg),
    }
}

/// What one iteration writes out: the duty set built from this tick's color
/// sample, the pulse amplitudes after this iteration's update, and the mood
/// after any sampling, plus the mood's delay.
pub open spec fn step_output_spec(s: ControlState, sample: Option<u16>, cfg: Config) -> StepOutput {
    StepOutput {
        duties: map_outputs_spec(
            color_spec(s.tick as int, cfg.hue_sweep_multiplier as int),
            pulse_step(s.pulse, s.tick as int, cfg),
            step_mood(s, sample, cfg),
            cfg,
        ),
        delay_ms: delay_for(step_mood(s, sample, cfg), cfg),
    }
}

impl ControlState {
    /// The tick counter stays inside its range.
    pub open spec fn wf(self) -> bool {
        self.tick < TICK_MODULUS
    }

    /// Startup state: tick 0, dark pulse, Warm mood (the first sampling
    /// boundary is tick 0 itself, so the mood is resampled before anything
    /// is written).
    pub fn new() -> (s: ControlState)
        ensures
            s == (ControlState {
                tick: 0u16,
                pulse: PulseState { bright: 0u16, afterglow: 0u16 },
                mood: Mood::Warm,
            }),
            s.wf(),
    {
        ControlState { tick: 0, pulse: PulseState::new(), mood: Mood::Warm }
    }

    /// Whether the caller must read the temperature source before this
    /// iteration's `step`.
    pub fn needs_sample(&self, cfg: &Config) -> (b: bool)
        requires
            cfg.wf(),
        ensures
            b == needs_sample_spec(*self, *cfg),
    {
        self.tick % cfg.sampling_period == 0
    }

    /// One iteration of the control loop, in order: compute this tick's
    /// color sample, advance the pulse (trigger then decay), on a sampling
    /// boundary convert the raw reading and update the mood, map everything
    /// onto the nine duty values and the mood's delay, and finally advance
    /// the wrapping tick counter.  The caller performs the blocking work:
    /// it reads the sensor when `needs_sample` says so and hands the raw
    /// count in, writes the returned duties to the sink, and waits out the
    /// returned delay.
    pub fn step(&mut self, sample: Option<u16>, cfg: &Config) -> (out: StepOutput)
        requires
            old(self).wf(),
            cfg.wf(),
            needs_sample_spec(*old(self), *cfg) ==> sample is Some && sample->0 < 4096,
        ensures
            *final(self) == step_state_spec(*old(self), sample, *cfg),
            final(self).wf(),
            out == step_output_spec(*old(self), sample, *cfg),
            !needs_sample_spec(*old(self), *cfg) ==> final(self).mood == old(self).mood,
    {
        let color: ColorSample = color_sample(self.tick, cfg);
        self.pulse.advance(self.tick, cfg);
        if self.tick % cfg.sampling_period == 0 {
            let raw: u16 = sample.unwrap();
            self.mood = mood_for_celsius(convert_to_celsius(raw), cfg.cold_threshold);
        }
        let duties: DutySet = map_outputs(color, self.pulse, self.mood, cfg);
        let delay_ms: u32 = iteration_delay(self.mood, cfg);
        self.tick = if self.tick >= TICK_MODULUS - 1 {
            0
        } else {
            self.tick + 1
        };
        StepOutput { duties, delay_ms }
    }
}

} // verus!
