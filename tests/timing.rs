use stm32f030_hal::i2c::{timing_parameters, timing_supported, TimingParameters};

fn fits(t: &TimingParameters) -> bool {
    t.presc < 16 && t.scldel < 16 && t.sdadel < 16
}

#[test]
fn timing_10khz_is_standard_mode() {
    let t = timing_parameters(10_000);
    assert!(fits(&t));
    assert_eq!(
        t,
        TimingParameters { presc: 1, scldel: 4, sdadel: 2, sclh: 251, scll: 255 }
    );
}

#[test]
fn timing_100khz_is_standard_mode() {
    let t = timing_parameters(100_000);
    assert!(fits(&t));
    assert_eq!(t.presc, 1);
    assert_eq!(t.scldel, 4);
    assert_eq!(t.sdadel, 2);
    assert_eq!(t.scll, 255);
    assert_eq!(t.sclh, 251);
}

#[test]
fn timing_100001hz_is_fast_mode() {
    let t = timing_parameters(100_001);
    assert!(fits(&t));
    assert_eq!(
        t,
        TimingParameters { presc: 0, scldel: 3, sdadel: 1, sclh: 249, scll: 255 }
    );
}

#[test]
fn timing_400khz_is_fast_mode() {
    let t = timing_parameters(400_000);
    assert!(fits(&t));
    assert_eq!(
        t,
        TimingParameters { presc: 0, scldel: 3, sdadel: 1, sclh: 249, scll: 255 }
    );
}

#[test]
fn timing_low_frequency_keeps_truncated_bound() {
    // 2 MHz / 1 kHz - 1 = 1999, which stays above 255 and is stored as 1999 mod 256.
    let t = timing_parameters(1_000);
    assert_eq!(t.scll, 207);
    assert_eq!(t.sclh, 203);
}

#[test]
fn timing_register_words() {
    assert_eq!(timing_parameters(100_000).register_value(), 0x1042_FBFF);
    assert_eq!(timing_parameters(400_000).register_value(), 0x0031_F9FF);
}

#[test]
fn timing_supported_frequencies() {
    assert!(timing_supported(10_000));
    assert!(timing_supported(100_000));
    assert!(timing_supported(100_001));
    assert!(timing_supported(400_000));
    assert!(timing_supported(4_000_000));
    assert!(!timing_supported(0));
    assert!(!timing_supported(4_000_001));
    // 2 MHz / 7782 Hz - 1 = 256 truncates to a clock low count of 0.
    assert!(!timing_supported(7_782));
}
