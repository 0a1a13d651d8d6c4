use lis2dtw12::i2c::SlaveAddr;
use lis2dtw12::register_data::{offset_to_byte, raw_sample, temperature_from_raw};
use lis2dtw12::register_settings::{clamp_to, flag};
use lis2dtw12::registers::Register;
use lis2dtw12::{
    AllInterruptSources, AllSources, BandwidthSelection, EventStatus, FifoMode,
    FifoSamplesStatus, FreeFallThreshold, FullScale, Int1PadConfig, Int2PadConfig, Mode,
    OutputDataRate, Sign, SixDSource, Status, TapPriority, TapSource, Threshold6D, WakeUpSource,
};

const ALL_MODES: [Mode; 9] = [
    Mode::HighPerformance,
    Mode::ContinuousLowPower4,
    Mode::ContinuousLowPower3,
    Mode::ContinuousLowPower2,
    Mode::ContinuousLowPower1,
    Mode::SingleConversionLowPower4,
    Mode::SingleConversionLowPower3,
    Mode::SingleConversionLowPower2,
    Mode::SingleConversionLowPower1,
];

const ALL_SCALES: [(FullScale, i32); 4] =
    [(FullScale::G2, 244), (FullScale::G4, 488), (FullScale::G8, 976), (FullScale::G16, 1952)];

fn is_12_bit(mode: Mode) -> bool {
    matches!(mode, Mode::ContinuousLowPower1 | Mode::SingleConversionLowPower1)
}

#[test]
fn status_decodes_each_bit() {
    let s = Status::from(0b1001_0001);
    assert!(s.fifo_threshold);
    assert!(!s.wake_up_event);
    assert!(!s.sleep_event);
    assert!(s.double_tap_event);
    assert!(!s.single_tap_event);
    assert!(!s.position_change_event);
    assert!(!s.free_fall_event);
    assert!(s.data_ready);
}

#[test]
fn status_decodes_the_other_bits() {
    let s = Status::from(0b0110_1110);
    assert!(!s.fifo_threshold);
    assert!(s.wake_up_event);
    assert!(s.sleep_event);
    assert!(!s.double_tap_event);
    assert!(s.single_tap_event);
    assert!(s.position_change_event);
    assert!(s.free_fall_event);
    assert!(!s.data_ready);
}

#[test]
fn event_status_decodes_each_bit() {
    let s = EventStatus::from(0b1100_0001);
    assert_eq!(
        s,
        EventStatus {
            fifo_overrun: true,
            temperature_data_ready: true,
            sleep_event: false,
            double_tap_event: false,
            single_tap_event: false,
            position_change_event: false,
            free_fall_event: false,
            data_ready: true,
        }
    );
    let s = EventStatus::from(0b0011_1110);
    assert_eq!(
        s,
        EventStatus {
            fifo_overrun: false,
            temperature_data_ready: false,
            sleep_event: true,
            double_tap_event: true,
            single_tap_event: true,
            position_change_event: true,
            free_fall_event: true,
            data_ready: false,
        }
    );
}

#[test]
fn fifo_samples_status_splits_flags_and_count() {
    assert_eq!(
        FifoSamplesStatus::from(0b1010_0101),
        FifoSamplesStatus { threshold: true, overrun: false, samples: 0b10_0101 }
    );
    assert_eq!(
        FifoSamplesStatus::from(0b0111_1111),
        FifoSamplesStatus { threshold: false, overrun: true, samples: 63 }
    );
}

#[test]
fn wake_up_source_decodes_each_bit() {
    assert_eq!(
        WakeUpSource::from(0b0010_1010),
        WakeUpSource {
            free_fall_event: true,
            sleep_event: false,
            wake_up_event: true,
            x_wake_up_event: false,
            y_wake_up_event: true,
            z_wake_up_event: false,
        }
    );
    assert_eq!(
        WakeUpSource::from(0b1101_0101),
        WakeUpSource {
            free_fall_event: false,
            sleep_event: true,
            wake_up_event: false,
            x_wake_up_event: true,
            y_wake_up_event: false,
            z_wake_up_event: true,
        }
    );
}

#[test]
fn tap_sign_is_positive_when_the_sign_bit_is_clear() {
    assert_eq!(TapSource::from(0b0000_0000).tap_sign, Sign::Positive);
    assert_eq!(TapSource::from(0b0000_1000).tap_sign, Sign::Negative);
    assert_eq!(TapSource::from(0b1111_0111).tap_sign, Sign::Positive);
}

#[test]
fn tap_source_decodes_each_bit() {
    assert_eq!(
        TapSource::from(0b0101_0101),
        TapSource {
            tap_event: true,
            single_tap_event: false,
            double_tap_event: true,
            tap_sign: Sign::Positive,
            x_tap_event: true,
            y_tap_event: false,
            z_tap_event: true,
        }
    );
    assert_eq!(
        TapSource::from(0b0010_1010),
        TapSource {
            tap_event: false,
            single_tap_event: true,
            double_tap_event: false,
            tap_sign: Sign::Negative,
            x_tap_event: false,
            y_tap_event: true,
            z_tap_event: false,
        }
    );
}

#[test]
fn six_d_source_decodes_each_bit() {
    assert_eq!(
        SixDSource::from(0b0101_0101),
        SixDSource {
            position_change_event: true,
            zh_over_threshold: false,
            zl_over_threshold: true,
            yh_over_threshold: false,
            yl_over_threshold: true,
            xh_over_threshold: false,
            xl_over_threshold: true,
        }
    );
    assert_eq!(
        SixDSource::from(0b0010_1010),
        SixDSource {
            position_change_event: false,
            zh_over_threshold: true,
            zl_over_threshold: false,
            yh_over_threshold: true,
            yl_over_threshold: false,
            xh_over_threshold: true,
            xl_over_threshold: false,
        }
    );
}

#[test]
fn all_interrupt_sources_decodes_each_bit() {
    assert_eq!(
        AllInterruptSources::from(0b0010_1010),
        AllInterruptSources {
            sleep_change_interrupt: true,
            six_d_interrupt: false,
            double_tap_interrupt: true,
            single_tap_interrupt: false,
            wake_up_interrupt: true,
            free_fall_interrupt: false,
        }
    );
    assert_eq!(
        AllInterruptSources::from(0b1101_0101),
        AllInterruptSources {
            sleep_change_interrupt: false,
            six_d_interrupt: true,
            double_tap_interrupt: false,
            single_tap_interrupt: true,
            wake_up_interrupt: false,
            free_fall_interrupt: true,
        }
    );
}

#[test]
fn all_sources_decodes_five_bytes_in_order() {
    let bytes = [0x80, 0x20, 0x08, 0x40, 0x01];
    let s = AllSources::from(bytes);
    assert_eq!(s.event_status, EventStatus::from(0x80));
    assert_eq!(s.wake_up_source, WakeUpSource::from(0x20));
    assert_eq!(s.tap_source, TapSource::from(0x08));
    assert_eq!(s.six_d_source, SixDSource::from(0x40));
    assert_eq!(s.all_interrupt_sources, AllInterruptSources::from(0x01));
    assert!(s.event_status.fifo_overrun);
    assert!(s.wake_up_source.free_fall_event);
    assert_eq!(s.tap_source.tap_sign, Sign::Negative);
    assert!(s.six_d_source.position_change_event);
    assert!(s.all_interrupt_sources.free_fall_interrupt);
}

#[test]
fn every_byte_decodes() {
    for v in 0..=255u8 {
        let _ = Status::from(v);
        let _ = EventStatus::from(v);
        let _ = WakeUpSource::from(v);
        let _ = SixDSource::from(v);
        let _ = AllInterruptSources::from(v);
        assert_eq!(FifoSamplesStatus::from(v).samples, v % 64);
        assert_eq!(TapSource::from(v).tap_sign == Sign::Negative, v & 0x08 != 0);
    }
}

#[test]
fn int1_pad_config_round_trips_through_its_byte() {
    for v in 0..=255u8 {
        let config = Int1PadConfig::from(v);
        assert_eq!(u8::from(config), v);
        assert_eq!(Int1PadConfig::from(u8::from(config)), config);
    }
}

#[test]
fn int2_pad_config_round_trips_through_its_byte() {
    for v in 0..=255u8 {
        let config = Int2PadConfig::from(v);
        assert_eq!(u8::from(config), v);
        assert_eq!(Int2PadConfig::from(u8::from(config)), config);
    }
}

#[test]
fn int1_pad_config_bits() {
    let none = Int1PadConfig::default();
    assert_eq!(u8::from(none), 0);
    assert_eq!(u8::from(Int1PadConfig { int1_6d: true, ..none }), 0x80);
    assert_eq!(u8::from(Int1PadConfig { int1_single_tap: true, ..none }), 0x40);
    assert_eq!(u8::from(Int1PadConfig { int1_wu: true, ..none }), 0x20);
    assert_eq!(u8::from(Int1PadConfig { int1_ff: true, ..none }), 0x10);
    assert_eq!(u8::from(Int1PadConfig { int1_tap: true, ..none }), 0x08);
    assert_eq!(u8::from(Int1PadConfig { int1_diff5: true, ..none }), 0x04);
    assert_eq!(u8::from(Int1PadConfig { int1_fth: true, ..none }), 0x02);
    assert_eq!(u8::from(Int1PadConfig { int1_drdy: true, ..none }), 0x01);
}

#[test]
fn int2_pad_config_bits() {
    let none = Int2PadConfig::default();
    assert_eq!(u8::from(none), 0);
    assert_eq!(u8::from(Int2PadConfig { int2_sleep_state: true, ..none }), 0x80);
    assert_eq!(u8::from(Int2PadConfig { int2_sleep_chg: true, ..none }), 0x40);
    assert_eq!(u8::from(Int2PadConfig { int2_boot: true, ..none }), 0x20);
    assert_eq!(u8::from(Int2PadConfig { int2_drdy_t: true, ..none }), 0x10);
    assert_eq!(u8::from(Int2PadConfig { int2_ovr: true, ..none }), 0x08);
    assert_eq!(u8::from(Int2PadConfig { int2_diff5: true, ..none }), 0x04);
    assert_eq!(u8::from(Int2PadConfig { int2_fth: true, ..none }), 0x02);
    assert_eq!(u8::from(Int2PadConfig { int2_drdy: true, ..none }), 0x01);
}

#[test]
fn mode_bit_patterns() {
    let expected = [0b0100, 0b0011, 0b0010, 0b0001, 0b0000, 0b1011, 0b1010, 0b1001, 0b1000];
    for (mode, bits) in ALL_MODES.iter().zip(expected) {
        assert_eq!(mode.bits(), bits);
        assert_eq!(Mode::from_bits(bits), Some(*mode));
    }
    assert_eq!(Mode::from_bits(0b0101), None);
    assert_eq!(Mode::from_bits(0b1100), None);
    assert_eq!(Mode::from_bits(0x10), None);
}

#[test]
fn output_data_rate_bit_patterns() {
    let all = [
        OutputDataRate::PowerDown,
        OutputDataRate::Hz1_6,
        OutputDataRate::Hz12_5,
        OutputDataRate::Hz25,
        OutputDataRate::Hz50,
        OutputDataRate::Hz100,
        OutputDataRate::Hz200,
        OutputDataRate::Hz400,
        OutputDataRate::Hz800,
        OutputDataRate::Hz1600,
    ];
    for (i, odr) in all.iter().enumerate() {
        assert_eq!(odr.bits(), i as u8);
        assert_eq!(OutputDataRate::from_bits(i as u8), Some(*odr));
    }
    assert_eq!(OutputDataRate::from_bits(10), None);
    assert_eq!(OutputDataRate::from_bits(15), None);
}

#[test]
fn two_bit_settings_bit_patterns() {
    let bw = [
        BandwidthSelection::OdrDiv2,
        BandwidthSelection::OdrDiv4,
        BandwidthSelection::OdrDiv10,
        BandwidthSelection::OdrDiv20,
    ];
    let fs = [FullScale::G2, FullScale::G4, FullScale::G8, FullScale::G16];
    let th = [Threshold6D::Deg80, Threshold6D::Deg70, Threshold6D::Deg60, Threshold6D::Deg50];
    for i in 0..4usize {
        assert_eq!(bw[i].bits(), i as u8);
        assert_eq!(fs[i].bits(), i as u8);
        assert_eq!(th[i].bits(), i as u8);
        assert_eq!(BandwidthSelection::from_bits(i as u8), Some(bw[i]));
        assert_eq!(FullScale::from_bits(i as u8), Some(fs[i]));
        assert_eq!(Threshold6D::from_bits(i as u8), Some(th[i]));
    }
    assert_eq!(BandwidthSelection::from_bits(4), None);
    assert_eq!(FullScale::from_bits(4), None);
    assert_eq!(Threshold6D::from_bits(4), None);
}

#[test]
fn three_bit_settings_bit_patterns() {
    let tp = [
        TapPriority::XYZ,
        TapPriority::YXZ,
        TapPriority::XZY,
        TapPriority::ZYX,
        TapPriority::XYZAlt,
        TapPriority::YZX,
        TapPriority::ZXY,
        TapPriority::ZYXAlt,
    ];
    let ff = [
        FreeFallThreshold::Ths5,
        FreeFallThreshold::Ths7,
        FreeFallThreshold::Ths8,
        FreeFallThreshold::Ths10,
        FreeFallThreshold::Ths11,
        FreeFallThreshold::Ths13,
        FreeFallThreshold::Ths15,
        FreeFallThreshold::Ths16,
    ];
    for i in 0..8usize {
        assert_eq!(tp[i].bits(), i as u8);
        assert_eq!(ff[i].bits(), i as u8);
        assert_eq!(TapPriority::from_bits(i as u8), Some(tp[i]));
        assert_eq!(FreeFallThreshold::from_bits(i as u8), Some(ff[i]));
    }
    assert_eq!(TapPriority::from_bits(8), None);
    assert_eq!(FreeFallThreshold::from_bits(8), None);
}

#[test]
fn fifo_mode_bit_patterns() {
    assert_eq!(FifoMode::Bypass.bits(), 0b000);
    assert_eq!(FifoMode::StopOnFifoFull.bits(), 0b001);
    assert_eq!(FifoMode::ContinuousToFifo.bits(), 0b011);
    assert_eq!(FifoMode::BypassToContinuous.bits(), 0b100);
    assert_eq!(FifoMode::Continuous.bits(), 0b110);
    assert_eq!(FifoMode::from_bits(0b011), Some(FifoMode::ContinuousToFifo));
    assert_eq!(FifoMode::from_bits(0b110), Some(FifoMode::Continuous));
    assert_eq!(FifoMode::from_bits(0b010), None);
    assert_eq!(FifoMode::from_bits(0b101), None);
    assert_eq!(FifoMode::from_bits(0b111), None);
}

#[test]
fn defaults_are_the_power_on_values() {
    assert_eq!(Mode::default(), Mode::ContinuousLowPower1);
    assert_eq!(OutputDataRate::default(), OutputDataRate::Hz12_5);
    assert_eq!(BandwidthSelection::default(), BandwidthSelection::OdrDiv2);
    assert_eq!(FullScale::default(), FullScale::G2);
    assert_eq!(FifoMode::default(), FifoMode::Bypass);
    assert_eq!(Threshold6D::default(), Threshold6D::Deg80);
    assert_eq!(TapPriority::default(), TapPriority::XYZ);
    assert_eq!(FreeFallThreshold::default(), FreeFallThreshold::Ths5);
    assert_eq!(SlaveAddr::default(), SlaveAddr::Default);
}

#[test]
fn alignment_shift_is_four_only_in_the_12_bit_modes() {
    for mode in ALL_MODES {
        assert_eq!(mode.alignment_shift(), if is_12_bit(mode) { 4 } else { 2 });
    }
}

#[test]
fn conversion_shifts_then_scales_for_every_mode_and_scale() {
    let samples: [i16; 11] = [0, 1, 3, 4, 15, 16, -1, -4, -16, i16::MAX, i16::MIN];
    for mode in ALL_MODES {
        for (scale, factor) in ALL_SCALES {
            for raw in samples {
                let shifted = if is_12_bit(mode) { raw >> 4 } else { raw >> 2 };
                assert_eq!(scale.convert_raw_i16_to_ug(raw, mode), shifted as i32 * factor);
            }
        }
    }
}

#[test]
fn conversion_exact_values() {
    assert_eq!(FullScale::G2.convert_raw_i16_to_ug(16384, Mode::HighPerformance), 999_424);
    assert_eq!(FullScale::G2.convert_raw_i16_to_ug(16384, Mode::ContinuousLowPower1), 249_856);
    assert_eq!(FullScale::G4.convert_raw_i16_to_ug(16, Mode::SingleConversionLowPower1), 488);
    assert_eq!(FullScale::G8.convert_raw_i16_to_ug(4, Mode::ContinuousLowPower2), 976);
    assert_eq!(FullScale::G16.convert_raw_i16_to_ug(-4, Mode::SingleConversionLowPower4), -1952);
    assert_eq!(FullScale::G2.convert_raw_i16_to_ug(-1, Mode::HighPerformance), -244);
    assert_eq!(FullScale::G2.convert_raw_i16_to_ug(-1, Mode::ContinuousLowPower1), -244);
    assert_eq!(FullScale::G16.convert_raw_i16_to_ug(i16::MIN, Mode::HighPerformance), -15_990_784);
    assert_eq!(FullScale::G16.convert_raw_i16_to_ug(i16::MAX, Mode::HighPerformance), 15_988_832);
    assert_eq!(FullScale::G2.ug_per_count(), 244);
    assert_eq!(FullScale::G4.ug_per_count(), 488);
    assert_eq!(FullScale::G8.ug_per_count(), 976);
    assert_eq!(FullScale::G16.ug_per_count(), 1952);
}

#[test]
fn conversion_in_milli_g_matches_the_factor_table() {
    let mg = FullScale::G2.convert_raw_i16_to_ug(4, Mode::HighPerformance) as f32 / 1000.0;
    assert_eq!(mg, 0.244);
    let mg = FullScale::G16.convert_raw_i16_to_ug(16, Mode::ContinuousLowPower1) as f32 / 1000.0;
    assert_eq!(mg, 1.952);
}

#[test]
fn temperature_is_25_degrees_plus_the_code_over_256() {
    assert_eq!(temperature_from_raw(0), 6400);
    assert_eq!(temperature_from_raw(256), 6656);
    assert_eq!(temperature_from_raw(-256), 6144);
    assert_eq!(temperature_from_raw(0) as f32 / 256.0, 25.0);
    assert_eq!(temperature_from_raw(256) as f32 / 256.0, 26.0);
    assert_eq!(temperature_from_raw(-256) as f32 / 256.0, 24.0);
    assert_eq!(temperature_from_raw(128) as f32 / 256.0, 25.5);
    assert_eq!(temperature_from_raw(i16::MAX), 39167);
    assert_eq!(temperature_from_raw(i16::MIN), -26368);
}

#[test]
fn raw_sample_joins_low_and_high_byte() {
    assert_eq!(raw_sample(0x34, 0x12), 0x1234);
    assert_eq!(raw_sample(0x00, 0x80), i16::MIN);
    assert_eq!(raw_sample(0xFF, 0x7F), i16::MAX);
    assert_eq!(raw_sample(0xFF, 0xFF), -1);
    assert_eq!(raw_sample(0x00, 0xFF), -256);
    assert_eq!(raw_sample(0x00, 0x01), 256);
    assert_eq!(raw_sample(0x00, 0x00), 0);
}

#[test]
fn clamp_to_limits_from_above_only() {
    assert_eq!(clamp_to(0, 31), 0);
    assert_eq!(clamp_to(31, 31), 31);
    assert_eq!(clamp_to(32, 31), 31);
    assert_eq!(clamp_to(40, 31), clamp_to(31, 31));
    assert_eq!(clamp_to(100, 63), clamp_to(63, 63));
    assert_eq!(clamp_to(255, 3), 3);
}

#[test]
fn flag_is_the_mask_or_nothing() {
    assert_eq!(flag(true, 0x40), 0x40);
    assert_eq!(flag(false, 0x40), 0);
}

#[test]
fn offset_byte_is_twos_complement() {
    assert_eq!(offset_to_byte(0), 0);
    assert_eq!(offset_to_byte(5), 5);
    assert_eq!(offset_to_byte(127), 0x7F);
    assert_eq!(offset_to_byte(-1), 0xFF);
    assert_eq!(offset_to_byte(-128), 0x80);
}

#[test]
fn slave_address_has_two_values() {
    assert_eq!(SlaveAddr::Default.addr(), 0b001_1000);
    assert_eq!(SlaveAddr::Alternative(false).addr(), 0b001_1000);
    assert_eq!(SlaveAddr::Alternative(true).addr(), 0b001_1001);
}

#[test]
fn register_addresses() {
    let map = [
        (Register::OUT_T_L, 0x0D),
        (Register::OUT_T_H, 0x0E),
        (Register::WHO_AM_I, 0x0F),
        (Register::CTRL1, 0x20),
        (Register::CTRL2, 0x21),
        (Register::CTRL3, 0x22),
        (Register::CTRL4_INT1_PAD_CTRL, 0x23),
        (Register::CTRL5_INT2_PAD_CTRL, 0x24),
        (Register::CTRL6, 0x25),
        (Register::STATUS, 0x27),
        (Register::OUT_X_L, 0x28),
        (Register::OUT_X_H, 0x29),
        (Register::OUT_Y_L, 0x2A),
        (Register::OUT_Y_H, 0x2B),
        (Register::OUT_Z_L, 0x2C),
        (Register::OUT_Z_H, 0x2D),
        (Register::FIFO_CTRL, 0x2E),
        (Register::FIFO_SAMPLES, 0x2F),
        (Register::TAP_THS_X, 0x30),
        (Register::TAP_THS_Y, 0x31),
        (Register::TAP_THS_Z, 0x32),
        (Register::INT_DUR, 0x33),
        (Register::WAKE_UP_THS, 0x34),
        (Register::WAKE_UP_DUR, 0x35),
        (Register::FREE_FALL, 0x36),
        (Register::STATUS_DUP, 0x37),
        (Register::WAKE_UP_SRC, 0x38),
        (Register::TAP_SRC, 0x39),
        (Register::SIXD_SRC, 0x3A),
        (Register::ALL_INT_SRC, 0x3B),
        (Register::X_OFS_USR, 0x3C),
        (Register::Y_OFS_USR, 0x3D),
        (Register::Z_OFS_USR, 0x3E),
        (Register::CTRL7, 0x3F),
    ];
    for (reg, addr) in map {
        assert_eq!(reg.addr(), addr);
        assert_eq!(reg.burst_addr(), addr | 0x80);
    }
}
