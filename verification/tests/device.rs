use mma8x5x::mock::{MockBus, Transaction};
use mma8x5x::PortraitLandscapeOrientation;
use mma8x5x::{
    AutoSleepDataRate, DebounceCounterMode, EnabledInterrupts, Error,
    FreefallMotionAxisActivity, FreefallMotionConfiguration, FreefallMotionDebounceMode,
    GScale, InterruptPinConfiguration, InterruptPinPolarity, InterruptPinRoutes,
    InterruptSourcePinRoute, Mma8x5x, OutputDataRate, PowerMode, ReadMode, Register, SlaveAddr,
    SystemMode, UnscaledMeasurement, WakeInterrupts,
};

#[test]
fn can_create_and_destroy_mma8451() {
    let sensor = Mma8x5x::new_mma8451(MockBus::new(vec![]), SlaveAddr::Alternative(true));
    assert!(sensor.destroy().done());
}

#[test]
fn can_create_and_destroy_mma8452() {
    let sensor = Mma8x5x::new_mma8452(MockBus::new(vec![]), SlaveAddr::Alternative(true));
    assert!(sensor.destroy().done());
}

#[test]
fn can_create_and_destroy_mma8453() {
    let sensor = Mma8x5x::new_mma8453(MockBus::new(vec![]), SlaveAddr::Alternative(true));
    assert!(sensor.destroy().done());
}

#[test]
fn can_create_and_destroy_mma8652() {
    let sensor = Mma8x5x::new_mma8652(MockBus::new(vec![]));
    assert!(sensor.destroy().done());
}

#[test]
fn can_create_and_destroy_mma8653() {
    let sensor = Mma8x5x::new_mma8653(MockBus::new(vec![]));
    assert!(sensor.destroy().done());
}

#[test]
fn done_is_false_while_script_remains() {
    let bus = MockBus::new(vec![Transaction::Write(0x1D, vec![Register::CTRL_REG1, 1])]);
    let sensor = Mma8x5x::new_mma8653(bus);
    assert!(!sensor.destroy().done());
}

#[test]
fn can_activate_then_standby() {
    let bus = MockBus::new(vec![
        Transaction::Write(0x1D, vec![Register::CTRL_REG1, 1]),
        Transaction::Write(0x1D, vec![Register::CTRL_REG1, 0]),
    ]);
    let sensor = Mma8x5x::new_mma8653(bus);
    let sensor = sensor.into_active().ok().unwrap();
    let sensor = sensor.into_standby().ok().unwrap();
    assert!(sensor.destroy().done());
}

#[test]
fn can_read_device_id() {
    let bus = MockBus::new(vec![Transaction::WriteRead(
        0x1D,
        vec![Register::WHO_AM_I],
        vec![0x3A],
    )]);
    let mut sensor = Mma8x5x::new_mma8653(bus);
    assert_eq!(0x3A, sensor.device_id().unwrap());
    assert!(sensor.destroy().done());
}

#[test]
fn can_set_offset_correction() {
    let bus = MockBus::new(vec![Transaction::Write(
        0x1D,
        vec![Register::OFF_X, 0x7F, 0x80, 0xFF],
    )]);
    let mut sensor = Mma8x5x::new_mma8451(bus, SlaveAddr::Alternative(true));
    sensor.set_offset_correction(127, -128, -1).unwrap();
    assert!(sensor.destroy().done());
}

#[test]
fn can_get_offset_correction() {
    let bus = MockBus::new(vec![Transaction::WriteRead(
        0x1D,
        vec![Register::OFF_X],
        vec![0x7F, 0x80, 0xFF],
    )]);
    let mut sensor = Mma8x5x::new_mma8452(bus, SlaveAddr::Alternative(true));
    assert_eq!((127, -128, -1), sensor.offset_correction().unwrap());
    assert!(sensor.destroy().done());
}

#[test]
fn set_odr_800() {
    let bus = MockBus::new(vec![Transaction::Write(0x1D, vec![Register::CTRL_REG1, 0])]);
    let mut sensor = Mma8x5x::new_mma8452(bus, SlaveAddr::Alternative(true));
    sensor.set_data_rate(OutputDataRate::Hz800).unwrap();
    assert!(sensor.destroy().done());
}

#[test]
fn set_odr_400() {
    let bus = MockBus::new(vec![Transaction::Write(0x1D, vec![Register::CTRL_REG1, 0x08])]);
    let mut sensor = Mma8x5x::new_mma8452(bus, SlaveAddr::Alternative(true));
    sensor.set_data_rate(OutputDataRate::Hz400).unwrap();
    assert!(sensor.destroy().done());
}

#[test]
fn set_odr_200() {
    let bus = MockBus::new(vec![Transaction::Write(0x1D, vec![Register::CTRL_REG1, 0x10])]);
    let mut sensor = Mma8x5x::new_mma8452(bus, SlaveAddr::Alternative(true));
    sensor.set_data_rate(OutputDataRate::Hz200).unwrap();
    assert!(sensor.destroy().done());
}

#[test]
fn set_odr_100() {
    let bus = MockBus::new(vec![Transaction::Write(0x1D, vec![Register::CTRL_REG1, 0x18])]);
    let mut sensor = Mma8x5x::new_mma8452(bus, SlaveAddr::Alternative(true));
    sensor.set_data_rate(OutputDataRate::Hz100).unwrap();
    assert!(sensor.destroy().done());
}

#[test]
fn set_odr_50() {
    let bus = MockBus::new(vec![Transaction::Write(0x1D, vec![Register::CTRL_REG1, 0x20])]);
    let mut sensor = Mma8x5x::new_mma8452(bus, SlaveAddr::Alternative(true));
    sensor.set_data_rate(OutputDataRate::Hz50).unwrap();
    assert!(sensor.destroy().done());
}

#[test]
fn set_odr_12_5() {
    let bus = MockBus::new(vec![Transaction::Write(0x1D, vec![Register::CTRL_REG1, 0x28])]);
    let mut sensor = Mma8x5x::new_mma8452(bus, SlaveAddr::Alternative(true));
    sensor.set_data_rate(OutputDataRate::Hz12_5).unwrap();
    assert!(sensor.destroy().done());
}

#[test]
fn set_odr_6_25() {
    let bus = MockBus::new(vec![Transaction::Write(0x1D, vec![Register::CTRL_REG1, 0x30])]);
    let mut sensor = Mma8x5x::new_mma8452(bus, SlaveAddr::Alternative(true));
    sensor.set_data_rate(OutputDataRate::Hz6_25).unwrap();
    assert!(sensor.destroy().done());
}

#[test]
fn set_odr_1_56() {
    let bus = MockBus::new(vec![Transaction::Write(0x1D, vec![Register::CTRL_REG1, 0x38])]);
    let mut sensor = Mma8x5x::new_mma8452(bus, SlaveAddr::Alternative(true));
    sensor.set_data_rate(OutputDataRate::Hz1_56).unwrap();
    assert!(sensor.destroy().done());
}

#[test]
fn setting_same_data_rate_twice_writes_same_byte() {
    let bus = MockBus::new(vec![
        Transaction::Write(0x1D, vec![Register::CTRL_REG1, 0x28]),
        Transaction::Write(0x1D, vec![Register::CTRL_REG1, 0x28]),
    ]);
    let mut sensor = Mma8x5x::new_mma8452(bus, SlaveAddr::Alternative(true));
    sensor.set_data_rate(OutputDataRate::Hz12_5).unwrap();
    sensor.set_data_rate(OutputDataRate::Hz12_5).unwrap();
    assert!(sensor.destroy().done());
}

#[test]
fn set_wpm_normal() {
    let bus = MockBus::new(vec![Transaction::Write(0x1D, vec![Register::CTRL_REG2, 0])]);
    let mut sensor = Mma8x5x::new_mma8451(bus, SlaveAddr::Alternative(true));
    sensor.set_wake_power_mode(PowerMode::Normal).unwrap();
    assert!(sensor.destroy().done());
}

#[test]
fn set_wpm_low_noise() {
    let bus = MockBus::new(vec![Transaction::Write(0x1D, vec![Register::CTRL_REG2, 0x01])]);
    let mut sensor = Mma8x5x::new_mma8451(bus, SlaveAddr::Alternative(true));
    sensor
        .set_wake_power_mode(PowerMode::LowNoiseLowPower)
        .unwrap();
    assert!(sensor.destroy().done());
}

#[test]
fn set_wpm_high_resolution() {
    let bus = MockBus::new(vec![Transaction::Write(0x1D, vec![Register::CTRL_REG2, 0x02])]);
    let mut sensor = Mma8x5x::new_mma8451(bus, SlaveAddr::Alternative(true));
    sensor
        .set_wake_power_mode(PowerMode::HighResolution)
        .unwrap();
    assert!(sensor.destroy().done());
}

#[test]
fn set_wpm_low_power() {
    let bus = MockBus::new(vec![Transaction::Write(0x1D, vec![Register::CTRL_REG2, 0x03])]);
    let mut sensor = Mma8x5x::new_mma8451(bus, SlaveAddr::Alternative(true));
    sensor.set_wake_power_mode(PowerMode::LowPower).unwrap();
    assert!(sensor.destroy().done());
}

#[test]
fn can_read_10_bit_unscaled() {
    let bus = MockBus::new(vec![
        Transaction::Write(0x1D, vec![Register::CTRL_REG1, 1]),
        Transaction::WriteRead(
            0x1D,
            vec![Register::OUT_X_H],
            vec![0x41, 0x40, 0x42, 0x80, 0x43, 0xC0],
        ),
    ]);
    let sensor = Mma8x5x::new_mma8653(bus);
    let mut sensor = sensor.into_active().ok().unwrap();
    let expected = UnscaledMeasurement {
        x: 0x4140 >> 6,
        y: 0x4280 >> 6,
        z: 0x43C0 >> 6,
    };
    assert_eq!(expected, sensor.read_unscaled().unwrap());
    assert!(sensor.destroy().done());
}

#[test]
fn can_read_10_bit() {
    let bus = MockBus::new(vec![
        Transaction::Write(0x1D, vec![Register::CTRL_REG1, 1]),
        Transaction::WriteRead(
            0x1D,
            vec![Register::OUT_X_H],
            vec![0x41, 0x40, 0x42, 0x80, 0x43, 0xC0],
        ),
    ]);
    let sensor = Mma8x5x::new_mma8653(bus);
    let mut sensor = sensor.into_active().ok().unwrap();
    let m = sensor.read_unscaled().unwrap();
    let counts = sensor.counts_per_g();
    assert_eq!(128, counts);
    let x = f32::from(m.x) / f32::from(counts);
    let y = f32::from(m.y) / f32::from(counts);
    let z = f32::from(m.z) / f32::from(counts);
    let expected_x = f32::from(0x4140_u16 >> 6) / (256.0 / 2.0);
    let expected_y = f32::from(0x4280_u16 >> 6) / (256.0 / 2.0);
    let expected_z = f32::from(0x43C0_u16 >> 6) / (256.0 / 2.0);
    assert!((x - 0.01) < expected_x && (x + 0.01) > expected_x);
    assert!((y - 0.01) < expected_y && (y + 0.01) > expected_y);
    assert!((z - 0.01) < expected_z && (z + 0.01) > expected_z);
    assert!(sensor.destroy().done());
}

#[test]
fn scale_8g_read_scenario() {
    let bus = MockBus::new(vec![
        Transaction::Write(0x1D, vec![Register::XYZ_DATA_CFG, 0x02]),
        Transaction::Write(0x1D, vec![Register::CTRL_REG1, 1]),
        Transaction::WriteRead(
            0x1D,
            vec![Register::OUT_X_H],
            vec![0x41, 0x40, 0x42, 0x80, 0x43, 0xC0],
        ),
    ]);
    let mut sensor = Mma8x5x::new_mma8653(bus);
    sensor.set_scale(GScale::G8).unwrap();
    let mut sensor = sensor.into_active().ok().unwrap();
    let m = sensor.read_unscaled().unwrap();
    assert_eq!(0x4140 >> 6, m.x);
    assert_eq!(0x4280 >> 6, m.y);
    assert_eq!(0x43C0 >> 6, m.z);
    let counts = sensor.counts_per_g();
    assert_eq!(32, counts);
    let x = f32::from(m.x) / f32::from(counts);
    let expected_x = f32::from(0x4140_u16 >> 6) / (256.0 / 8.0);
    assert!((x - 0.01) < expected_x && (x + 0.01) > expected_x);
    assert!(sensor.destroy().done());
}

#[test]
fn set_scale_writes_fs_field() {
    let bus = MockBus::new(vec![
        Transaction::Write(0x1D, vec![Register::XYZ_DATA_CFG, 0x02]),
        Transaction::Write(0x1D, vec![Register::XYZ_DATA_CFG, 0x01]),
        Transaction::Write(0x1D, vec![Register::XYZ_DATA_CFG, 0x00]),
    ]);
    let mut sensor = Mma8x5x::new_mma8653(bus);
    sensor.set_scale(GScale::G8).unwrap();
    sensor.set_scale(GScale::G4).unwrap();
    sensor.set_scale(GScale::G2).unwrap();
    assert!(sensor.destroy().done());
}

#[test]
fn set_read_mode_fast_and_normal() {
    let bus = MockBus::new(vec![
        Transaction::Write(0x1D, vec![Register::CTRL_REG1, 0x02]),
        Transaction::Write(0x1D, vec![Register::CTRL_REG1, 0x00]),
    ]);
    let mut sensor = Mma8x5x::new_mma8653(bus);
    sensor.set_read_mode(ReadMode::Fast).unwrap();
    sensor.set_read_mode(ReadMode::Normal).unwrap();
    assert!(sensor.destroy().done());
}

#[test]
fn bus_error_is_returned_unmodified() {
    let bus = MockBus::new(vec![]);
    let mut sensor = Mma8x5x::new_mma8653(bus);
    let res = sensor.set_scale(GScale::G8);
    assert!(matches!(res, Err(Error::I2C(_))));
    assert!(sensor.destroy().done());
}

#[test]
fn failed_mode_change_returns_device() {
    let bus = MockBus::new(vec![]);
    let sensor = Mma8x5x::new_mma8653(bus);
    let err = sensor.into_active().err().unwrap();
    assert!(matches!(err.error, Error::I2C(_)));
    assert!(err.dev.destroy().done());
}

#[test]
fn failed_write_keeps_cached_registers() {
    let bus = MockBus::new(vec![
        Transaction::Write(0x1D, vec![Register::CTRL_REG1, 1]),
    ]);
    let mut sensor = Mma8x5x::new_mma8653(bus);
    assert!(sensor.set_data_rate(OutputDataRate::Hz50).is_err());
    let sensor = sensor.into_active().ok().unwrap();
    assert!(sensor.destroy().done());
}

#[test]
fn reset_in_standby_restores_defaults() {
    let bus = MockBus::new(vec![
        Transaction::Write(0x1D, vec![Register::CTRL_REG1, 0x38]),
        Transaction::Write(0x1D, vec![Register::CTRL_REG2, 0x40]),
        Transaction::Write(0x1D, vec![Register::CTRL_REG1, 1]),
    ]);
    let mut sensor = Mma8x5x::new_mma8653(bus);
    sensor.set_data_rate(OutputDataRate::Hz1_56).unwrap();
    sensor.reset().unwrap();
    let sensor = sensor.into_active().ok().unwrap();
    assert!(sensor.destroy().done());
}

#[test]
fn reset_from_active_restores_defaults() {
    let bus = MockBus::new(vec![
        Transaction::Write(0x1D, vec![Register::CTRL_REG1, 1]),
        Transaction::Write(0x1D, vec![Register::CTRL_REG2, 0x40]),
        Transaction::Write(0x1D, vec![Register::PL_CFG, 0xC0]),
    ]);
    let sensor = Mma8x5x::new_mma8653(bus);
    let sensor = sensor.into_active().ok().unwrap();
    let mut sensor = sensor.reset().ok().unwrap();
    sensor.enable_portrait_landscape_detection().unwrap();
    assert!(sensor.destroy().done());
}

#[test]
fn can_enable_and_disable_self_test() {
    let bus = MockBus::new(vec![
        Transaction::Write(0x1D, vec![Register::CTRL_REG2, 0x80]),
        Transaction::Write(0x1D, vec![Register::CTRL_REG2, 0x00]),
    ]);
    let mut sensor = Mma8x5x::new_mma8652(bus);
    sensor.enable_self_test().unwrap();
    sensor.disable_self_test().unwrap();
    assert!(sensor.destroy().done());
}

#[test]
fn can_configure_auto_sleep() {
    let bus = MockBus::new(vec![
        Transaction::Write(0x1D, vec![Register::CTRL_REG1, 0xC0]),
        Transaction::Write(0x1D, vec![Register::ASLP_COUNT, 125]),
        Transaction::Write(0x1D, vec![Register::CTRL_REG2, 0x18]),
        Transaction::Write(0x1D, vec![Register::CTRL_REG2, 0x1C]),
        Transaction::Write(0x1D, vec![Register::CTRL_REG2, 0x18]),
    ]);
    let mut sensor = Mma8x5x::new_mma8652(bus);
    sensor
        .set_auto_sleep_data_rate(AutoSleepDataRate::Hz1_56)
        .unwrap();
    sensor.set_auto_sleep_count(125).unwrap();
    sensor.set_sleep_power_mode(PowerMode::LowPower).unwrap();
    sensor.enable_auto_sleep().unwrap();
    sensor.disable_auto_sleep().unwrap();
    assert!(sensor.destroy().done());
}

#[test]
fn can_configure_portrait_landscape() {
    let bus = MockBus::new(vec![
        Transaction::Write(0x1D, vec![Register::PL_CFG, 0xC0]),
        Transaction::Write(0x1D, vec![Register::PL_CFG, 0x80]),
        Transaction::Write(0x1D, vec![Register::PL_CFG, 0x00]),
        Transaction::Write(0x1D, vec![Register::PL_CFG, 0x80]),
        Transaction::Write(0x1D, vec![Register::PL_COUNT, 0xAB]),
    ]);
    let mut sensor = Mma8x5x::new_mma8653(bus);
    sensor.enable_portrait_landscape_detection().unwrap();
    sensor.disable_portrait_landscape_detection().unwrap();
    sensor
        .set_debounce_counter_mode(DebounceCounterMode::Decrement)
        .unwrap();
    sensor
        .set_debounce_counter_mode(DebounceCounterMode::Clear)
        .unwrap();
    sensor.set_debounce_counter(0xAB).unwrap();
    assert!(sensor.destroy().done());
}

#[test]
fn set_debounce_counter_while_active_mma8451() {
    let bus = MockBus::new(vec![
        Transaction::Write(0x1D, vec![Register::CTRL_REG1, 1]),
        Transaction::Write(0x1D, vec![Register::PL_COUNT, 0xAB]),
    ]);
    let sensor = Mma8x5x::new_mma8451(bus, SlaveAddr::Alternative(true));
    let mut sensor = sensor.into_active().ok().unwrap();
    sensor.set_debounce_counter(0xAB).unwrap();
    assert!(sensor.destroy().done());
}

#[test]
fn set_debounce_counter_while_active_mma8652() {
    let bus = MockBus::new(vec![
        Transaction::Write(0x1D, vec![Register::CTRL_REG1, 1]),
        Transaction::Write(0x1D, vec![Register::PL_COUNT, 0xAB]),
    ]);
    let sensor = Mma8x5x::new_mma8652(bus);
    let mut sensor = sensor.into_active().ok().unwrap();
    sensor.set_debounce_counter(0xAB).unwrap();
    assert!(sensor.destroy().done());
}

#[test]
fn can_configure_interrupts() {
    let bus = MockBus::new(vec![
        Transaction::Write(0x1D, vec![Register::CTRL_REG4, 0x10]),
        Transaction::Write(0x1D, vec![Register::CTRL_REG5, 0x20]),
        Transaction::Write(0x1D, vec![Register::CTRL_REG3, 0x02]),
        Transaction::Write(0x1D, vec![Register::CTRL_REG3, 0x03]),
        Transaction::Write(0x1D, vec![Register::CTRL_REG3, 0x13]),
    ]);
    let mut sensor = Mma8x5x::new_mma8652(bus);
    sensor
        .set_enabled_interrupts(EnabledInterrupts {
            portrait_landscape: true,
            ..EnabledInterrupts::default()
        })
        .unwrap();
    sensor
        .set_interrupt_pin_routes(InterruptPinRoutes {
            transient: InterruptSourcePinRoute::Int1,
            ..InterruptPinRoutes::default()
        })
        .unwrap();
    sensor
        .set_interrupt_pin_polarity(InterruptPinPolarity::ActiveHigh)
        .unwrap();
    sensor
        .set_interrupt_pin_configuration(InterruptPinConfiguration::OpenDrain)
        .unwrap();
    sensor
        .set_wake_interrupts(WakeInterrupts {
            pulse: true,
            ..WakeInterrupts::default()
        })
        .unwrap();
    assert!(sensor.destroy().done());
}

#[test]
fn can_enable_freefall_motion_detection() {
    let bus = MockBus::new(vec![
        Transaction::Write(0x1D, vec![Register::FF_MT_CFG, 0x38]),
        Transaction::Write(0x1D, vec![Register::FF_MT_THS, 7]),
        Transaction::Write(0x1D, vec![Register::FF_MT_COUNT, 7]),
    ]);
    let mut sensor = Mma8x5x::new_mma8652(bus);
    sensor
        .enable_freefall_motion_detection(FreefallMotionConfiguration::default())
        .unwrap();
    assert!(sensor.destroy().done());
}

#[test]
fn freefall_threshold_is_clamped() {
    let bus = MockBus::new(vec![
        Transaction::Write(0x1D, vec![Register::FF_MT_CFG, 0x38]),
        Transaction::Write(0x1D, vec![Register::FF_MT_THS, 0xFF]),
        Transaction::Write(0x1D, vec![Register::FF_MT_COUNT, 0xFF]),
    ]);
    let mut sensor = Mma8x5x::new_mma8652(bus);
    sensor
        .enable_freefall_motion_detection(FreefallMotionConfiguration {
            threshold: 65535,
            debounce_mode: FreefallMotionDebounceMode::IncrementOrClear,
            ..FreefallMotionConfiguration::default()
        })
        .unwrap();
    assert!(sensor.destroy().done());
}

#[test]
fn can_read_freefall_motion_source() {
    let bus = MockBus::new(vec![
        Transaction::Write(0x1D, vec![Register::CTRL_REG1, 1]),
        Transaction::WriteRead(0x1D, vec![Register::FF_MT_SRC], vec![0x8B]),
        Transaction::WriteRead(0x1D, vec![Register::FF_MT_SRC], vec![0x0B]),
    ]);
    let sensor = Mma8x5x::new_mma8652(bus);
    let mut sensor = sensor.into_active().ok().unwrap();
    let src = sensor.freefall_motion_source().unwrap().unwrap();
    assert_eq!(FreefallMotionAxisActivity::Negative, src.x_axis);
    assert_eq!(FreefallMotionAxisActivity::Positive, src.y_axis);
    assert_eq!(FreefallMotionAxisActivity::Inactive, src.z_axis);
    assert!(sensor.freefall_motion_source().unwrap().is_none());
    assert!(sensor.destroy().done());
}

#[test]
fn can_read_system_mode() {
    let bus = MockBus::new(vec![
        Transaction::WriteRead(0x1D, vec![Register::SYSMOD], vec![0x00]),
        Transaction::WriteRead(0x1D, vec![Register::SYSMOD], vec![0x01]),
        Transaction::WriteRead(0x1D, vec![Register::SYSMOD], vec![0x02]),
    ]);
    let mut sensor = Mma8x5x::new_mma8653(bus);
    assert_eq!(SystemMode::Standby, sensor.system_mode().unwrap());
    assert_eq!(SystemMode::Wake, sensor.system_mode().unwrap());
    assert_eq!(SystemMode::Sleep, sensor.system_mode().unwrap());
    assert!(sensor.destroy().done());
}

#[test]
fn can_read_data_status() {
    let bus = MockBus::new(vec![Transaction::WriteRead(
        0x1D,
        vec![Register::STATUS],
        vec![0x88],
    )]);
    let mut sensor = Mma8x5x::new_mma8653(bus);
    let st = sensor.data_status().unwrap();
    assert!(st.xyz_overwrite);
    assert!(st.xyz_new_data);
    assert!(!st.x_overwrite);
    assert!(!st.x_new_data);
    assert!(sensor.destroy().done());
}

#[test]
fn can_read_portrait_landscape_status() {
    let bus = MockBus::new(vec![Transaction::WriteRead(
        0x1D,
        vec![Register::PL_STATUS],
        vec![0x04],
    )]);
    let mut sensor = Mma8x5x::new_mma8653(bus);
    let st = sensor.portrait_landscape_status().unwrap();
    assert_eq!(
        PortraitLandscapeOrientation::LandscapeRight,
        st.portrait_landscape
    );
    assert!(sensor.destroy().done());
}

#[test]
fn can_read_interrupt_status() {
    let bus = MockBus::new(vec![Transaction::WriteRead(
        0x1D,
        vec![Register::INT_SOURCE],
        vec![0x10],
    )]);
    let mut sensor = Mma8x5x::new_mma8653(bus);
    let st = sensor.interrupt_status().unwrap();
    assert!(st.portrait_landscape);
    assert!(!st.data_ready);
    assert!(sensor.destroy().done());
}

#[test]
fn mismatched_transaction_fails_and_keeps_script() {
    let bus = MockBus::new(vec![Transaction::Write(0x1D, vec![Register::CTRL_REG2, 0x40])]);
    let mut sensor = Mma8x5x::new_mma8653(bus);
    assert!(matches!(
        sensor.set_auto_sleep_count(7),
        Err(Error::I2C(_))
    ));
    sensor.reset().unwrap();
    assert!(sensor.destroy().done());
}
