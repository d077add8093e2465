use pca9685::timing::{angle_off_ticks, prescale_for_frequency, pulse_off_ticks};

#[test]
fn prescale_matches_datasheet_table() {
    // round(25_000_000 / 4096 / hz - 1) for the common servo frequencies
    assert_eq!(prescale_for_frequency(50), 121); // 0x79
    assert_eq!(prescale_for_frequency(60), 101); // 0x65
    assert_eq!(prescale_for_frequency(40), 152);
    assert_eq!(prescale_for_frequency(100), 60);
    assert_eq!(prescale_for_frequency(200), 30); // 0x1E, the datasheet's example
    assert_eq!(prescale_for_frequency(1000), 5);
}

#[test]
fn prescale_clamps_to_register_range() {
    // 1 Hz would need a prescale far above the register's reach
    assert_eq!(prescale_for_frequency(1), 255);
    // beyond ~12 kHz the rounded formula goes negative and clamps to zero
    assert_eq!(prescale_for_frequency(1_000_000), 0);
}

#[test]
fn pulse_1500us_at_50hz_gives_307_ticks() {
    assert_eq!(pulse_off_ticks(1500), 307);
}

#[test]
fn pulse_ticks_across_the_period() {
    assert_eq!(pulse_off_ticks(0), 0);
    assert_eq!(pulse_off_ticks(1000), 204); // 1000 * 4096 / 20000 = 204.8
    assert_eq!(pulse_off_ticks(2000), 409); // 2000 * 4096 / 20000 = 409.6
    assert_eq!(pulse_off_ticks(19999), 4095); // longest pulse still in range
}

#[test]
fn angle_endpoints_and_midpoint() {
    assert_eq!(angle_off_ticks(-90), 390);
    assert_eq!(angle_off_ticks(90), 2710);
    // the midpoint of 390 and 2710, hit exactly
    assert_eq!(angle_off_ticks(0), 1550);
}

#[test]
fn angle_out_of_range_behaves_as_the_limit() {
    assert_eq!(angle_off_ticks(-120), angle_off_ticks(-90));
    assert_eq!(angle_off_ticks(120), angle_off_ticks(90));
    assert_eq!(angle_off_ticks(i16::MIN), 390);
    assert_eq!(angle_off_ticks(i16::MAX), 2710);
}

#[test]
fn angle_sweep_keeps_fractional_precision() {
    // (45 + 90) * 2320 / 180 + 390, with the product formed first
    assert_eq!(angle_off_ticks(45), 2130);
    assert_eq!(angle_off_ticks(-45), 970);
    assert_eq!(angle_off_ticks(1), 1562); // 91 * 2320 / 180 = 1172.8 -> 1172
}
