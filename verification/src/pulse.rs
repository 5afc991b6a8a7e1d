use vstd::prelude::*;
use crate::config::Config;

verus! {

/// Amplitude of a fresh bright flash.
pub const FLASH_LEVEL: u16 = 0xffff;

/// Amplitude of a fresh afterglow.
pub const AFTERGLOW_LEVEL: u16 = 0x1000;

/// The heartbeat pulse: two independently decaying amplitudes, a bright
/// flash and a dim afterglow, both saturating at zero.
#[derive(Clone, Copy, PartialEq, Eq, Structural, Debug)]
pub struct PulseState {
    pub bright: u16,
    pub afterglow: u16,
}

/// Saturating decrement: never negative.
pub open spec fn sat_sub(v: u16, d: u16) -> u16 {
    if v >= d {
        (v - d) as u16
    } else {
        0u16
    }
}

/// The lead-in flash fires slightly before the main trigger, on ticks where
/// `tick + lead_in_offset` falls on the trigger cadence.
pub open spec fn lead_in_fires(tick: int, cfg: Config) -> bool {
    (tick + cfg.lead_in_offset) % (cfg.trigger_period as int) == 0
}

/// The main trigger fires on the trigger cadence itself.
pub open spec fn main_fires(tick: int, cfg: Config) -> bool {
    tick % (cfg.trigger_period as int) == 0
}

/// One iteration of the pulse generator: first the triggers (lead-in sets
/// the flash, the main trigger sets flash and afterglow), then exactly one
/// saturating decay step on both amplitudes.  Decay runs every iteration,
/// so on a trigger iteration the amplitudes already show one decay step.
pub open spec fn pulse_step(p: PulseState, tick: int, cfg: Config) -> PulseState {
    let b = if lead_in_fires(tick, cfg) || main_fires(tick, cfg) {
        FLASH_LEVEL
    } else {
        p.bright
    };
    let a = if main_fires(tick, cfg) {
        AFTERGLOW_LEVEL
    } else {
        p.afterglow
    };
    PulseState { bright: sat_sub(b, cfg.decay_step), afterglow: sat_sub(a, cfg.decay_step) }
}

/// The pulse after a run of iterations at the given ticks, earliest first.
pub open spec fn pulse_iterate(p: PulseState, ticks: Seq<int>, cfg: Config) -> PulseState
    decreases ticks.len(),
{
    if ticks.len() == 0 {
        p
    } else {
        pulse_iterate(pulse_step(p, ticks[0], cfg), ticks.drop_first(), cfg)
    }
}

impl PulseState {
    /// Both amplitudes start dark.
    pub fn new() -> (p: PulseState)
        ensures
            p == (PulseState { bright: 0u16, afterglow: 0u16 }),
    {
        PulseState { bright: 0, afterglow: 0 }
    }

    /// Advances the pulse by one iteration: triggers first, then one
    /// saturating decay step on both amplitudes.
    pub fn advance(&mut self, tick: u16, cfg: &Config)
        requires
            cfg.wf(),
        ensures
            *final(self) == pulse_step(*old(self), tick as int, *cfg),
    {
        let lead_in: bool = ((tick as u32 + cfg.lead_in_offset as u32) % cfg.trigger_period as u32)
            == 0;
        let main: bool = tick % cfg.trigger_period == 0;
        if lead_in || main {
            self.bright = FLASH_LEVEL;
        }
        if main {
            self.afterglow = AFTERGLOW_LEVEL;
        }
        self.bright = if self.bright >= cfg.decay_step {
            self.bright - cfg.decay_step
        } else {
            0
        };
        self.afterglow = if self.afterglow >= cfg.decay_step {
            self.afterglow - cfg.decay_step
        } else {
            0
        };
    }
}

/// On a main-trigger tick the amplitudes right after the iteration's update
/// are the fresh levels with exactly one decay step already subtracted,
/// whatever the pulse held before: trigger first, then decay.
pub proof fn lemma_pulse_trigger(p: PulseState, tick: int, cfg: Config)
    requires
        cfg.wf(),
        tick % (cfg.trigger_period as int) == 0,
    ensures
        pulse_step(p, tick, cfg).bright == sat_sub(FLASH_LEVEL, cfg.decay_step),
        pulse_step(p, tick, cfg).afterglow == sat_sub(AFTERGLOW_LEVEL, cfg.decay_step),
{
}

/// Linear decay between triggers: the amplitudes never go negative, and
/// after a run of iterations none of whose ticks fires a trigger, each
/// amplitude equals `max(0, previous - n * decay_step)` where `n` is the
/// number of iterations.
pub proof fn lemma_pulse_decay(p: PulseState, ticks: Seq<int>, cfg: Config)
    requires
        cfg.wf(),
        forall|i: int|
            0 <= i < ticks.len() ==> !lead_in_fires(ticks[i], cfg) && !main_fires(ticks[i], cfg),
    ensures
        pulse_iterate(p, ticks, cfg).bright as int == if p.bright as int - ticks.len() * cfg.decay_step
            >= 0 {
            p.bright as int - ticks.len() * cfg.decay_step
        } else {
            0
        },
        pulse_iterate(p, ticks, cfg).afterglow as int == if p.afterglow as int - ticks.len()
            * cfg.decay_step >= 0 {
            p.afterglow as int - ticks.len() * cfg.decay_step
        } else {
            0
        },
    decreases ticks.len(),
{
    if ticks.len() > 0 {
        let p1 = pulse_step(p, ticks[0], cfg);
        assert(p1.bright == sat_sub(p.bright, cfg.decay_step));
        assert(p1.afterglow == sat_sub(p.afterglow, cfg.decay_step));
        let rest = ticks.drop_first();
        assert(forall|i: int|
            0 <= i < rest.len() ==> !lead_in_fires(rest[i], cfg) && !main_fires(rest[i], cfg));
        lemma_pulse_decay(p1, rest, cfg);
        assert(ticks.len() * cfg.decay_step == rest.len() * cfg.decay_step + cfg.decay_step)
            by (nonlinear_arith)
            requires
                rest.len() + 1 == ticks.len(),
        ;
    }
}

} // verus!
