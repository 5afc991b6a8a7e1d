use mood_lights::color::ColorSample;
use mood_lights::config::Config;
use mood_lights::mapper::iteration_delay;
use mood_lights::mapper::map_outputs;
use mood_lights::pulse::PulseState;
use mood_lights::temperature::Mood;

fn test_config() -> Config {
    Config {
        cold_threshold: 5,
        sampling_period: 1000,
        trigger_period: 100,
        lead_in_offset: 20,
        decay_step: 1000,
        hue_sweep_multiplier: 40,
        suppress_eye_when_cold: true,
        delay_cold_ms: 20,
        delay_warm_ms: 10,
    }
}

#[test]
fn warm_heart_is_red_dominant() {
    let cfg = test_config();
    let color = ColorSample { red: 11, green: 22, blue: 33 };
    let pulse = PulseState { bright: 60000, afterglow: 2000 };
    let d = map_outputs(color, pulse, Mood::Warm, &cfg);
    assert_eq!(d.heart_red, 60000);
    assert_eq!(d.heart_green, 0);
    assert_eq!(d.heart_blue, 2000);
    // Both eyes show the color sample while Warm.
    assert_eq!((d.left_red, d.left_green, d.left_blue), (11, 22, 33));
    assert_eq!((d.right_red, d.right_green, d.right_blue), (11, 22, 33));
}

#[test]
fn cold_heart_is_blue_dominant() {
    let cfg = test_config();
    let color = ColorSample { red: 11, green: 22, blue: 33 };
    let pulse = PulseState { bright: 60000, afterglow: 2000 };
    let d = map_outputs(color, pulse, Mood::Cold, &cfg);
    assert_eq!(d.heart_red, 2000);
    assert_eq!(d.heart_green, 0);
    assert_eq!(d.heart_blue, 60000);
}

#[test]
fn cold_suppresses_right_eye_when_enabled() {
    let cfg = test_config();
    let color = ColorSample { red: 11, green: 22, blue: 33 };
    let pulse = PulseState { bright: 0, afterglow: 0 };
    let d = map_outputs(color, pulse, Mood::Cold, &cfg);
    assert_eq!((d.left_red, d.left_green, d.left_blue), (11, 22, 33));
    assert_eq!((d.right_red, d.right_green, d.right_blue), (0, 0, 0));
}

#[test]
fn cold_keeps_both_eyes_when_suppression_disabled() {
    let mut cfg = test_config();
    cfg.suppress_eye_when_cold = false;
    let color = ColorSample { red: 11, green: 22, blue: 33 };
    let pulse = PulseState { bright: 0, afterglow: 0 };
    let d = map_outputs(color, pulse, Mood::Cold, &cfg);
    assert_eq!((d.right_red, d.right_green, d.right_blue), (11, 22, 33));
}

#[test]
fn delay_follows_mood() {
    let cfg = test_config();
    assert_eq!(iteration_delay(Mood::Cold, &cfg), 20);
    assert_eq!(iteration_delay(Mood::Warm, &cfg), 10);
}

#[test]
fn mapper_is_idempotent() {
    // Pure function, no hidden state: calling it twice with identical
    // inputs yields identical outputs.
    let cfg = test_config();
    let color = ColorSample { red: 123, green: 456, blue: 789 };
    let pulse = PulseState { bright: 31000, afterglow: 96 };
    let first = map_outputs(color, pulse, Mood::Cold, &cfg);
    let second = map_outputs(color, pulse, Mood::Cold, &cfg);
    assert_eq!(first, second);
}
