use pitch::config::{is_power_of_two, ConfigError, FrameConfig};

#[test]
fn config_accepts_valid_geometry() {
    let c = FrameConfig::new(48000, 2048, 256).unwrap();
    assert_eq!(c.sample_rate(), 48000);
    assert_eq!(c.frame_size(), 2048);
    assert_eq!(c.step_size(), 256);
    assert_eq!(c.bin_count(), 1024);
    let small = FrameConfig::new(8000, 4, 1).unwrap();
    assert_eq!(small.bin_count(), 2);
    let largest_step = FrameConfig::new(44100, 4096, 4095).unwrap();
    assert_eq!(largest_step.step_size(), 4095);
}

#[test]
fn config_rejects_frame_size_not_power_of_two() {
    assert_eq!(
        FrameConfig::new(48000, 2000, 256).unwrap_err(),
        ConfigError::FrameSizeNotPowerOfTwo
    );
    assert_eq!(
        FrameConfig::new(48000, 0, 0).unwrap_err(),
        ConfigError::FrameSizeNotPowerOfTwo
    );
    assert_eq!(
        FrameConfig::new(48000, 12, 20).unwrap_err(),
        ConfigError::FrameSizeNotPowerOfTwo
    );
}

#[test]
fn config_rejects_step_not_below_frame() {
    assert_eq!(
        FrameConfig::new(48000, 2048, 2048).unwrap_err(),
        ConfigError::StepTooLarge
    );
    assert_eq!(
        FrameConfig::new(48000, 1, 1).unwrap_err(),
        ConfigError::StepTooLarge
    );
    assert_eq!(
        FrameConfig::new(48000, 256, 4096).unwrap_err(),
        ConfigError::StepTooLarge
    );
}

#[test]
fn config_rejects_zero_step() {
    assert_eq!(
        FrameConfig::new(48000, 2048, 0).unwrap_err(),
        ConfigError::StepZero
    );
}

#[test]
fn power_of_two_detection() {
    for k in 0..usize::BITS {
        assert!(is_power_of_two(1usize << k));
    }
    assert!(!is_power_of_two(0));
    assert!(!is_power_of_two(3));
    assert!(!is_power_of_two(6));
    assert!(!is_power_of_two(2047));
    assert!(!is_power_of_two(2049));
    assert!(!is_power_of_two(usize::MAX));
}
