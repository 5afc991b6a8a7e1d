use mood_lights::config::Config;
use mood_lights::pulse::PulseState;

fn test_config() -> Config {
    Config {
        cold_threshold: 5,
        sampling_period: 1000,
        trigger_period: 100,
        lead_in_offset: 20,
        decay_step: 1000,
        hue_sweep_multiplier: 40,
        suppress_eye_when_cold: true,
        delay_cold_ms: 20,
        delay_warm_ms: 10,
    }
}

#[test]
fn quiet_iteration_decays_both() {
    let cfg = test_config();
    let mut p = PulseState { bright: 5000, afterglow: 1500 };
    p.advance(7, &cfg);
    assert_eq!(p, PulseState { bright: 4000, afterglow: 500 });
}

#[test]
fn decay_floors_at_zero() {
    let cfg = test_config();
    let mut p = PulseState { bright: 4000, afterglow: 500 };
    p.advance(8, &cfg);
    assert_eq!(p, PulseState { bright: 3000, afterglow: 0 });
    p.advance(9, &cfg);
    assert_eq!(p, PulseState { bright: 2000, afterglow: 0 });
}

#[test]
fn linear_decay_over_a_quiet_run() {
    // With no trigger over n iterations each amplitude is
    // max(0, previous - n * decay_step), and never negative.
    let cfg = test_config();
    let mut p = PulseState { bright: 64535, afterglow: 3096 };
    for i in 0u16..70 {
        let tick: u16 = i + 1;  // ticks 1..=70 fire no trigger
        p.advance(tick, &cfg);
        let n: u32 = u32::from(i) + 1;
        assert_eq!(u32::from(p.bright), 64535u32.saturating_sub(n * 1000));
        assert_eq!(u32::from(p.afterglow), 3096u32.saturating_sub(n * 1000));
    }
    assert_eq!(p, PulseState { bright: 0, afterglow: 0 });
}

#[test]
fn main_trigger_then_one_decay_step() {
    // On a main-trigger tick the update sets the fresh levels and then
    // applies exactly one decay step, whatever the pulse held before.
    let cfg = test_config();
    let mut p = PulseState { bright: 123, afterglow: 456 };
    p.advance(200, &cfg);
    assert_eq!(p, PulseState { bright: 0xffff - 1000, afterglow: 0x1000 - 1000 });
}

#[test]
fn lead_in_refreshes_only_the_flash() {
    let cfg = test_config();
    let mut p = PulseState { bright: 123, afterglow: 456 };
    p.advance(80, &cfg);  // (80 + 20) % 100 == 0: lead-in fires
    assert_eq!(p, PulseState { bright: 0xffff - 1000, afterglow: 0 });
}

#[test]
fn new_pulse_is_dark() {
    assert_eq!(PulseState::new(), PulseState { bright: 0, afterglow: 0 });
}
