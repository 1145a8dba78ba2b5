use slint_snapshot::runtime::{
    pixel_count, validate_logical_size, validate_physical_size, ClockMode, RuntimeBuilder,
    RuntimeClock, RuntimeError, DEFAULT_MAX_PIXELS, MAX_DURATION_NANOS,
};

#[test]
fn real_time_clock_rejects_manual_advancement_without_installing_a_platform() {
    let mut clock = RuntimeClock::new(ClockMode::RealTime);
    assert_eq!(clock.mode(), ClockMode::RealTime);
    assert!(matches!(
        clock.advance(1_000_000),
        Err(RuntimeError::ManualClockRequired)
    ));
}

#[test]
fn validates_configuration_and_sizes_before_platform_use() {
    assert!(matches!(
        validate_logical_size(0, 100),
        Err(RuntimeError::InvalidLogicalSize {
            width: 0,
            height: 100
        })
    ));
    assert!(matches!(
        RuntimeBuilder::new().max_pixels(0).checked_settings(),
        Err(RuntimeError::InvalidPixelLimit { max_pixels: 0 })
    ));
}

#[test]
fn manual_clock_advances_exactly_and_rejects_overflow() {
    let mut clock = RuntimeClock::new(ClockMode::Manual);
    assert_eq!(clock.manual_elapsed(), Some(0));
    assert_eq!(clock.advance(16_000_000), Ok(16_000_000));
    assert_eq!(clock.advance(4_000_000), Ok(20_000_000));
    assert_eq!(
        clock.advance(MAX_DURATION_NANOS),
        Err(RuntimeError::ClockOverflow {
            elapsed_nanos: 20_000_000,
            advance_nanos: MAX_DURATION_NANOS
        })
    );
    assert_eq!(clock.manual_elapsed(), Some(20_000_000));
    assert_eq!(
        clock.advance(MAX_DURATION_NANOS - 20_000_000),
        Ok(MAX_DURATION_NANOS)
    );
    assert_eq!(RuntimeClock::new(ClockMode::RealTime).manual_elapsed(), None);
}

#[test]
fn physical_size_respects_the_pixel_budget() {
    assert_eq!(validate_physical_size(480, 360, 100_000), Err(RuntimeError::PixelLimitExceeded {
        width: 480,
        height: 360,
        pixels: 172_800,
        max_pixels: 100_000,
    }));
    assert_eq!(validate_physical_size(240, 180, 100_000), Ok(()));
    assert_eq!(
        validate_physical_size(0, 5, 100),
        Err(RuntimeError::EmptyPhysicalSize { width: 0, height: 5 })
    );
    assert_eq!(pixel_count(u32::MAX, u32::MAX), (u32::MAX as u64) * (u32::MAX as u64));
}

#[test]
fn builder_defaults_and_settings() {
    assert_eq!(DEFAULT_MAX_PIXELS, 16_777_216);
    assert_eq!(
        RuntimeBuilder::default().checked_settings(),
        Ok((DEFAULT_MAX_PIXELS, ClockMode::RealTime))
    );
    assert_eq!(
        RuntimeBuilder::new()
            .max_pixels(100_000)
            .clock_mode(ClockMode::Manual)
            .checked_settings(),
        Ok((100_000, ClockMode::Manual))
    );
    assert_eq!(ClockMode::default(), ClockMode::RealTime);
}
