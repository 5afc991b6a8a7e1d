use mood_lights::temperature::convert_to_celsius;
use mood_lights::temperature::mood_for_celsius;
use mood_lights::temperature::Mood;

#[test]
fn datasheet_example_reading() {
    // The documented example: a raw count of 891 is 20.1 degrees, which
    // rounds through tenths to 20 whole degrees.
    assert_eq!(convert_to_celsius(891), 20);
}

#[test]
fn extreme_low_reading() {
    // raw = 0 is the hottest representable reading: 437.2 degrees.
    assert_eq!(convert_to_celsius(0), 437);
}

#[test]
fn extreme_high_reading() {
    // raw = 4095 is far below zero; the tenths value -14798 wraps as a
    // 16-bit quantity to 50738 before the division by ten.
    assert_eq!(convert_to_celsius(4095), 5073);
}

#[test]
fn reading_that_rounds_to_zero() {
    // raw = 934 is a hair below zero degrees and rounds to zero tenths,
    // which does not wrap.
    assert_eq!(convert_to_celsius(934), 0);
}

#[test]
fn slightly_negative_reading_wraps() {
    // raw = 935 is about -0.5 degrees: -5 tenths wraps to 65531, giving
    // 6553 whole degrees.
    assert_eq!(convert_to_celsius(935), 6553);
}

#[test]
fn room_temperature_band() {
    // A few readings around room temperature, computed from the exact
    // fixed-point formula.
    assert_eq!(convert_to_celsius(911), 10);
    assert_eq!(convert_to_celsius(876), 27);
}

#[test]
fn mood_below_threshold_is_cold() {
    assert_eq!(mood_for_celsius(22, 23), Mood::Cold);
    assert_eq!(mood_for_celsius(0, 23), Mood::Cold);
    assert_eq!(mood_for_celsius(4, 5), Mood::Cold);
}

#[test]
fn mood_at_threshold_is_warm() {
    // The threshold itself is Warm: no deadband.
    assert_eq!(mood_for_celsius(23, 23), Mood::Warm);
    assert_eq!(mood_for_celsius(5, 5), Mood::Warm);
}

#[test]
fn mood_above_threshold_is_warm() {
    assert_eq!(mood_for_celsius(24, 23), Mood::Warm);
    assert_eq!(mood_for_celsius(65535, 23), Mood::Warm);
}
