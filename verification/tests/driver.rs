use lis2dtw12::driver::merge_field;
use lis2dtw12::interface::{Interface, Recorded};
use lis2dtw12::registers::Register;
use lis2dtw12::{
    AccelerationData, AllSources, BandwidthSelection, EventStatus, FifoMode, FifoSamplesStatus,
    FreeFallThreshold, FullScale, Int1PadConfig, Int2PadConfig, Lis2dtw12, Mode, OutputDataRate,
    RawAccelerationData, Sign, Status, TapPriority, Threshold6D,
};

#[derive(Debug, Clone, Copy, PartialEq, Eq)]
struct BusError(usize);

#[derive(Debug, Clone, PartialEq, Eq)]
enum Op {
    Read { sent: Vec<u8>, len: usize },
    Write(Vec<u8>),
}

/// A register file behind the bus. Transaction number `fail_at` fails, with
/// its number as the error. While the reset bit is set, `busy_polls` reads of
/// CTRL2 still show it; the next one shows it cleared.
struct SimBus {
    regs: [u8; 64],
    ops: Vec<Op>,
    fail_at: Option<usize>,
    busy_polls: u32,
}

impl SimBus {
    fn new() -> Self {
        SimBus { regs: [0; 64], ops: Vec::new(), fail_at: None, busy_polls: 0 }
    }

    fn with(reg: u8, value: u8) -> Self {
        let mut bus = SimBus::new();
        bus.regs[reg as usize] = value;
        bus
    }
}

impl Interface for SimBus {
    type Error = BusError;

    fn write_read(&mut self, write: &[u8], read: &mut [u8]) -> Result<(), BusError> {
        let n = self.ops.len();
        self.ops.push(Op::Read { sent: write.to_vec(), len: read.len() });
        if self.fail_at == Some(n) {
            return Err(BusError(n));
        }
        let base = (write[0] & 0x3F) as usize;
        if base == 0x21 && self.regs[0x21] & 0x40 != 0 {
            if self.busy_polls == 0 {
                self.regs[0x21] &= !0x40;
            } else {
                self.busy_polls -= 1;
            }
        }
        for (i, b) in read.iter_mut().enumerate() {
            *b = self.regs[(base + i) % 64];
        }
        Ok(())
    }

    fn write(&mut self, data: &[u8]) -> Result<(), BusError> {
        let n = self.ops.len();
        self.ops.push(Op::Write(data.to_vec()));
        if self.fail_at == Some(n) {
            return Err(BusError(n));
        }
        self.regs[(data[0] & 0x3F) as usize] = data[1];
        Ok(())
    }
}

fn read1(addr: u8) -> Op {
    Op::Read { sent: vec![addr], len: 1 }
}

fn burst(addr: u8, len: usize) -> Op {
    Op::Read { sent: vec![addr | 0x80], len }
}

fn write1(addr: u8, value: u8) -> Op {
    Op::Write(vec![addr, value])
}

/// Runs `op` on a device whose register `reg` holds `before`, and returns what
/// the register holds afterwards. Checks that `op` read and wrote `reg` once.
fn update(reg: u8, before: u8, op: fn(&mut Lis2dtw12<SimBus>) -> Result<(), BusError>) -> u8 {
    let mut dev = Lis2dtw12::new(SimBus::with(reg, before));
    assert_eq!(op(&mut dev), Ok(()));
    let bus = dev.destroy();
    assert_eq!(bus.ops, vec![read1(reg), write1(reg, bus.regs[reg as usize])]);
    for (i, v) in bus.regs.iter().enumerate() {
        if i != reg as usize {
            assert_eq!(*v, 0);
        }
    }
    bus.regs[reg as usize]
}

#[test]
fn new_makes_no_transaction_and_destroy_returns_the_bus() {
    let dev = Lis2dtw12::new(SimBus::with(0x0F, 0x44));
    let bus = dev.destroy();
    assert!(bus.ops.is_empty());
    assert_eq!(bus.regs[0x0F], 0x44);
}

#[test]
fn driver_works_over_a_borrowed_bus() {
    let mut bus = SimBus::with(0x0F, 0x44);
    {
        let mut dev = Lis2dtw12::new(&mut bus);
        assert_eq!(dev.get_device_id(), Ok(0x44));
    }
    assert_eq!(bus.ops, vec![read1(0x0F)]);
}

#[test]
fn get_device_id_reads_who_am_i() {
    let mut dev = Lis2dtw12::new(SimBus::with(0x0F, 0x44));
    assert_eq!(dev.get_device_id(), Ok(0x44));
    assert_eq!(dev.destroy().ops, vec![read1(0x0F)]);
}

#[test]
fn temperature_is_read_low_byte_first() {
    let mut bus = SimBus::new();
    bus.regs[0x0D] = 0x00;
    bus.regs[0x0E] = 0x01;
    let mut dev = Lis2dtw12::new(bus);
    assert_eq!(dev.get_temperature_raw(), Ok(256));
    assert_eq!(dev.get_temperature(), Ok(6656));
    assert_eq!(dev.get_temperature().map(|t| t as f32 / 256.0), Ok(26.0));
    assert_eq!(dev.destroy().ops, vec![burst(0x0D, 2), burst(0x0D, 2), burst(0x0D, 2)]);
}

#[test]
fn temperature_below_25_degrees() {
    let mut bus = SimBus::new();
    bus.regs[0x0D] = 0x00;
    bus.regs[0x0E] = 0xFF;
    let mut dev = Lis2dtw12::new(bus);
    assert_eq!(dev.get_temperature_raw(), Ok(-256));
    assert_eq!(dev.get_temperature().map(|t| t as f32 / 256.0), Ok(24.0));
}

#[test]
fn fifo_threshold_is_clamped_to_31() {
    let a = update(0x2E, 0b1110_0000, |d| d.set_fifo_threshold(40));
    let b = update(0x2E, 0b1110_0000, |d| d.set_fifo_threshold(31));
    assert_eq!(a, b);
    assert_eq!(a, 0b1111_1111);
    assert_eq!(update(0x2E, 0b1111_1111, |d| d.set_fifo_threshold(5)), 0b1110_0101);
    assert_eq!(update(0x2E, 0, |d| d.set_fifo_threshold(255)), 31);
}

#[test]
fn wake_up_threshold_is_clamped_to_63() {
    let a = update(0x34, 0b1100_0000, |d| d.set_wake_up_threshold(100));
    let b = update(0x34, 0b1100_0000, |d| d.set_wake_up_threshold(63));
    assert_eq!(a, b);
    assert_eq!(a, 0xFF);
    assert_eq!(update(0x34, 0xFF, |d| d.set_wake_up_threshold(1)), 0b1100_0001);
}

#[test]
fn tap_thresholds_are_clamped_to_31() {
    assert_eq!(update(0x30, 0xE0, |d| d.set_x_tap_threshold(32)), 0xFF);
    assert_eq!(update(0x31, 0xE0, |d| d.set_y_tap_threshold(200)), 0xFF);
    assert_eq!(update(0x32, 0xE0, |d| d.set_z_tap_threshold(31)), 0xFF);
    assert_eq!(update(0x30, 0xFF, |d| d.set_x_tap_threshold(0)), 0xE0);
    assert_eq!(update(0x31, 0xFF, |d| d.set_y_tap_threshold(9)), 0xE9);
    assert_eq!(update(0x32, 0x00, |d| d.set_z_tap_threshold(17)), 17);
}

#[test]
fn tap_timing_fields_are_clamped_and_placed() {
    assert_eq!(update(0x33, 0x0F, |d| d.set_double_tap_latency(16)), 0xFF);
    assert_eq!(update(0x33, 0xFF, |d| d.set_double_tap_latency(5)), 0x5F);
    assert_eq!(update(0x33, 0xF3, |d| d.set_tap_quiet_time(4)), 0xFF);
    assert_eq!(update(0x33, 0xFF, |d| d.set_tap_quiet_time(2)), 0xFB);
    assert_eq!(update(0x33, 0xFC, |d| d.set_tap_shock_time(9)), 0xFF);
    assert_eq!(update(0x33, 0xFF, |d| d.set_tap_shock_time(1)), 0xFD);
}

#[test]
fn wake_up_and_sleep_durations_are_clamped_and_placed() {
    assert_eq!(update(0x35, 0x00, |d| d.set_wake_up_duration(7)), 0b0110_0000);
    assert_eq!(update(0x35, 0xFF, |d| d.set_wake_up_duration(1)), 0b1011_1111);
    assert_eq!(update(0x35, 0x00, |d| d.set_sleep_duration(16)), 0x0F);
    assert_eq!(update(0x35, 0xFF, |d| d.set_sleep_duration(6)), 0xF6);
}

#[test]
fn full_scale_update_keeps_the_other_bits() {
    assert_eq!(update(0x25, 0xFF, |d| d.set_full_scale(FullScale::G8)), 0b1110_1111);
    assert_eq!(update(0x25, 0x00, |d| d.set_full_scale(FullScale::G8)), 0b0010_0000);
    assert_eq!(update(0x25, 0b1001_0110, |d| d.set_full_scale(FullScale::G8)), 0b1010_0110);
    assert_eq!(update(0x25, 0xFF, |d| d.set_full_scale(FullScale::G2)), 0b1100_1111);
    assert_eq!(update(0x25, 0x00, |d| d.set_full_scale(FullScale::G16)), 0b0011_0000);
    assert_eq!(update(0x25, 0x00, |d| d.set_full_scale(FullScale::G4)), 0b0001_0000);
}

#[test]
fn merge_field_replaces_only_the_masked_bits() {
    for current in 0..=255u8 {
        let merged = merge_field(current, 0b0011_0000, 0b0010_0000);
        assert_eq!(merged & !0b0011_0000, current & !0b0011_0000);
        assert_eq!(merged & 0b0011_0000, 0b0010_0000);
        assert_eq!(merge_field(current, 0x40, 0x40), current | 0x40);
        assert_eq!(merge_field(current, 0x40, 0), current & !0x40);
    }
}

#[test]
fn enumerated_settings_are_placed_in_their_fields() {
    assert_eq!(update(0x20, 0x0F, |d| d.set_output_data_rate(OutputDataRate::Hz1600)), 0x9F);
    assert_eq!(update(0x20, 0xFF, |d| d.set_output_data_rate(OutputDataRate::PowerDown)), 0x0F);
    assert_eq!(update(0x20, 0xF0, |d| d.set_mode(Mode::SingleConversionLowPower4)), 0xFB);
    assert_eq!(update(0x20, 0xFF, |d| d.set_mode(Mode::HighPerformance)), 0xF4);
    assert_eq!(update(0x25, 0x3F, |d| d.set_bandwidth(BandwidthSelection::OdrDiv10)), 0xBF);
    assert_eq!(update(0x25, 0xFF, |d| d.set_bandwidth(BandwidthSelection::OdrDiv2)), 0x3F);
    assert_eq!(update(0x22, 0x1F, |d| d.set_fifo_mode(FifoMode::Continuous)), 0xDF);
    assert_eq!(update(0x22, 0xFF, |d| d.set_fifo_mode(FifoMode::StopOnFifoFull)), 0x3F);
    assert_eq!(update(0x30, 0x9F, |d| d.set_6d_threshold(Threshold6D::Deg50)), 0xFF);
    assert_eq!(update(0x30, 0xFF, |d| d.set_6d_threshold(Threshold6D::Deg70)), 0xBF);
    assert_eq!(update(0x31, 0x1F, |d| d.set_tap_priority(TapPriority::ZXY)), 0xDF);
    assert_eq!(update(0x31, 0xFF, |d| d.set_tap_priority(TapPriority::XYZ)), 0x1F);
    assert_eq!(update(0x36, 0xF8, |d| d.set_free_fall_threshold(FreeFallThreshold::Ths16)), 0xFF);
    assert_eq!(update(0x36, 0xFF, |d| d.set_free_fall_threshold(FreeFallThreshold::Ths8)), 0xFA);
}

#[test]
fn flags_set_and_clear_one_bit() {
    assert_eq!(update(0x22, 0x00, |d| d.disconnect_cs_pull_up(true)), 0x10);
    assert_eq!(update(0x22, 0xFF, |d| d.disconnect_cs_pull_up(false)), 0xEF);
    assert_eq!(update(0x22, 0x00, |d| d.enable_continuous_update(true)), 0x08);
    assert_eq!(update(0x22, 0xFF, |d| d.enable_continuous_update(false)), 0xF7);
    assert_eq!(update(0x25, 0x00, |d| d.enable_filtered_data_selection(true)), 0x08);
    assert_eq!(update(0x25, 0xFF, |d| d.enable_filtered_data_selection(false)), 0xF7);
    assert_eq!(update(0x25, 0x00, |d| d.enable_low_noise(true)), 0x04);
    assert_eq!(update(0x25, 0xFF, |d| d.enable_low_noise(false)), 0xFB);
    assert_eq!(update(0x30, 0x00, |d| d.enable_4d_detection(true)), 0x80);
    assert_eq!(update(0x30, 0xFF, |d| d.enable_4d_detection(false)), 0x7F);
    assert_eq!(update(0x34, 0x00, |d| d.enable_double_tap_detection(true)), 0x80);
    assert_eq!(update(0x34, 0xFF, |d| d.enable_double_tap_detection(false)), 0x7F);
    assert_eq!(update(0x34, 0x00, |d| d.enable_sleep_mode(true)), 0x40);
    assert_eq!(update(0x34, 0xFF, |d| d.enable_sleep_mode(false)), 0xBF);
    assert_eq!(update(0x35, 0x00, |d| d.enable_stationary_detection(true)), 0x10);
    assert_eq!(update(0x35, 0xFF, |d| d.enable_stationary_detection(false)), 0xEF);
}

#[test]
fn ctrl7_flags_set_and_clear_one_bit() {
    assert_eq!(update(0x3F, 0x00, |d| d.set_pulsed_interrupt_mode(true)), 0x80);
    assert_eq!(update(0x3F, 0xFF, |d| d.set_pulsed_interrupt_mode(false)), 0x7F);
    assert_eq!(update(0x3F, 0x00, |d| d.route_int2_to_int1(true)), 0x40);
    assert_eq!(update(0x3F, 0xFF, |d| d.route_int2_to_int1(false)), 0xBF);
    assert_eq!(update(0x3F, 0x00, |d| d.enable_interrupts(true)), 0x20);
    assert_eq!(update(0x3F, 0xFF, |d| d.enable_interrupts(false)), 0xDF);
    assert_eq!(update(0x3F, 0x00, |d| d.enable_user_offset_on_output(true)), 0x10);
    assert_eq!(update(0x3F, 0xFF, |d| d.enable_user_offset_on_output(false)), 0xEF);
    assert_eq!(update(0x3F, 0x00, |d| d.enable_user_offset_on_wake_up(true)), 0x08);
    assert_eq!(update(0x3F, 0xFF, |d| d.enable_user_offset_on_wake_up(false)), 0xF7);
    assert_eq!(update(0x3F, 0x00, |d| d.set_user_offset_weight(true)), 0x04);
    assert_eq!(update(0x3F, 0xFF, |d| d.set_user_offset_weight(false)), 0xFB);
    assert_eq!(update(0x3F, 0x00, |d| d.enable_high_pass_filter_reference_mode(true)), 0x02);
    assert_eq!(update(0x3F, 0xFF, |d| d.enable_high_pass_filter_reference_mode(false)), 0xFD);
    assert_eq!(update(0x3F, 0x00, |d| d.enable_low_pass_filter_6d_interrupt(true)), 0x01);
    assert_eq!(update(0x3F, 0xFF, |d| d.enable_low_pass_filter_6d_interrupt(false)), 0xFE);
}

#[test]
fn tap_axes_are_enabled_and_disabled_without_touching_the_threshold() {
    assert_eq!(update(0x32, 0x1F, |d| d.enable_xyz_tap_detection(true, false, true)), 0xBF);
    assert_eq!(update(0x32, 0xFF, |d| d.enable_xyz_tap_detection(false, true, false)), 0x5F);
    assert_eq!(update(0x32, 0xEA, |d| d.enable_xyz_tap_detection(false, false, false)), 0x0A);
    assert_eq!(update(0x32, 0x00, |d| d.enable_xyz_tap_detection(true, true, true)), 0xE0);
}

#[test]
fn free_fall_duration_is_split_over_two_registers() {
    let mut bus = SimBus::new();
    bus.regs[0x35] = 0x7F;
    bus.regs[0x36] = 0x07;
    let mut dev = Lis2dtw12::new(bus);
    assert_eq!(dev.set_free_fall_duration(0b10_1001), Ok(()));
    let bus = dev.destroy();
    assert_eq!(
        bus.ops,
        vec![read1(0x35), write1(0x35, 0xFF), read1(0x36), write1(0x36, 0b0100_1111)]
    );
}

#[test]
fn free_fall_duration_clears_the_high_bit_and_clamps() {
    let mut bus = SimBus::new();
    bus.regs[0x35] = 0xFF;
    bus.regs[0x36] = 0xFF;
    let mut dev = Lis2dtw12::new(bus);
    assert_eq!(dev.set_free_fall_duration(0b01_0010), Ok(()));
    assert_eq!(dev.set_free_fall_duration(200), Ok(()));
    let bus = dev.destroy();
    assert_eq!(
        bus.ops,
        vec![
            read1(0x35),
            write1(0x35, 0x7F),
            read1(0x36),
            write1(0x36, 0b1001_0111),
            read1(0x35),
            write1(0x35, 0xFF),
            read1(0x36),
            write1(0x36, 0xFF),
        ]
    );
}

#[test]
fn free_fall_duration_stops_at_the_first_failure() {
    for fail_at in 0..4usize {
        let mut bus = SimBus::new();
        bus.fail_at = Some(fail_at);
        let mut dev = Lis2dtw12::new(bus);
        assert_eq!(dev.set_free_fall_duration(63), Err(BusError(fail_at)));
        assert_eq!(dev.destroy().ops.len(), fail_at + 1);
    }
}

#[test]
fn pad_configurations_are_written_whole() {
    let mut dev = Lis2dtw12::new(SimBus::new());
    let int1 = Int1PadConfig { int1_6d: true, int1_drdy: true, ..Int1PadConfig::default() };
    let int2 = Int2PadConfig { int2_boot: true, int2_fth: true, ..Int2PadConfig::default() };
    assert_eq!(dev.configure_int1_pad(int1), Ok(()));
    assert_eq!(dev.configure_int2_pad(int2), Ok(()));
    assert_eq!(dev.destroy().ops, vec![write1(0x23, 0x81), write1(0x24, 0x22)]);
}

#[test]
fn offsets_are_written_in_twos_complement() {
    let mut dev = Lis2dtw12::new(SimBus::new());
    assert_eq!(dev.set_x_offset(-1), Ok(()));
    assert_eq!(dev.set_y_offset(5), Ok(()));
    assert_eq!(dev.set_z_offset(-128), Ok(()));
    assert_eq!(dev.destroy().ops, vec![write1(0x3C, 0xFF), write1(0x3D, 0x05), write1(0x3E, 0x80)]);
}

#[test]
fn status_registers_are_read_and_decoded() {
    let mut bus = SimBus::new();
    bus.regs[0x27] = 0b1001_0001;
    bus.regs[0x37] = 0b0100_0000;
    bus.regs[0x2F] = 0b1000_0111;
    bus.regs[0x38] = 0b0000_0100;
    bus.regs[0x39] = 0b0100_1000;
    bus.regs[0x3A] = 0b0100_0001;
    bus.regs[0x3B] = 0b0010_0000;
    let mut dev = Lis2dtw12::new(bus);
    assert_eq!(dev.get_status(), Ok(Status::from(0b1001_0001)));
    assert_eq!(dev.get_event_status(), Ok(EventStatus::from(0b0100_0000)));
    assert_eq!(
        dev.get_fifo_samples_status(),
        Ok(FifoSamplesStatus { threshold: true, overrun: false, samples: 7 })
    );
    assert_eq!(dev.get_wake_up_source().map(|s| s.x_wake_up_event), Ok(true));
    assert_eq!(dev.get_tap_source().map(|s| (s.tap_event, s.tap_sign)), Ok((true, Sign::Negative)));
    assert_eq!(dev.get_6d_source().map(|s| (s.position_change_event, s.xl_over_threshold)), Ok((true, true)));
    assert_eq!(dev.get_all_interrupt_sources().map(|s| s.sleep_change_interrupt), Ok(true));
    assert_eq!(
        dev.destroy().ops,
        vec![read1(0x27), read1(0x37), read1(0x2F), read1(0x38), read1(0x39), read1(0x3A), read1(0x3B)]
    );
}

#[test]
fn all_sources_are_read_in_one_burst() {
    let mut bus = SimBus::new();
    bus.regs[0x37] = 0x80;
    bus.regs[0x38] = 0x20;
    bus.regs[0x39] = 0x08;
    bus.regs[0x3A] = 0x40;
    bus.regs[0x3B] = 0x01;
    let mut dev = Lis2dtw12::new(bus);
    assert_eq!(dev.get_all_sources(), Ok(AllSources::from([0x80, 0x20, 0x08, 0x40, 0x01])));
    assert_eq!(dev.destroy().ops, vec![burst(0x37, 5)]);
}

fn bus_with_samples(x: i16, y: i16, z: i16) -> SimBus {
    let mut bus = SimBus::new();
    for (i, v) in [x, y, z].iter().enumerate() {
        let bytes = v.to_le_bytes();
        bus.regs[0x28 + 2 * i] = bytes[0];
        bus.regs[0x28 + 2 * i + 1] = bytes[1];
    }
    bus
}

#[test]
fn raw_axes_are_the_left_justified_samples() {
    let mut dev = Lis2dtw12::new(bus_with_samples(1600, -1600, -1));
    assert_eq!(dev.get_x_accel_raw(), Ok(1600));
    assert_eq!(dev.get_y_accel_raw(), Ok(-1600));
    assert_eq!(dev.get_z_accel_raw(), Ok(-1));
    assert_eq!(dev.get_accel_data_raw(), Ok(RawAccelerationData { x: 1600, y: -1600, z: -1 }));
    assert_eq!(
        dev.destroy().ops,
        vec![burst(0x28, 2), burst(0x2A, 2), burst(0x2C, 2), burst(0x28, 6)]
    );
}

#[test]
fn raw_axes_do_not_depend_on_the_mode() {
    let mut dev = Lis2dtw12::new(bus_with_samples(16, i16::MIN, i16::MAX));
    assert_eq!(dev.get_x_accel_raw(), Ok(16));
    assert_eq!(dev.set_mode(Mode::HighPerformance), Ok(()));
    assert_eq!(dev.get_x_accel_raw(), Ok(16));
    assert_eq!(dev.get_y_accel_raw(), Ok(i16::MIN));
    assert_eq!(dev.get_z_accel_raw(), Ok(i16::MAX));
    assert_eq!(
        dev.get_accel_data_raw(),
        Ok(RawAccelerationData { x: 16, y: i16::MIN, z: i16::MAX })
    );
}

#[test]
fn raw_axes_are_joined_low_byte_first_in_the_order_x_y_z() {
    let mut bus = SimBus::new();
    for (i, b) in [0x01u8, 0x02, 0x03, 0x04, 0x05, 0x86].iter().enumerate() {
        bus.regs[0x28 + i] = *b;
    }
    let mut dev = Lis2dtw12::new(bus);
    assert_eq!(
        dev.get_accel_data_raw(),
        Ok(RawAccelerationData {
            x: i16::from_le_bytes([0x01, 0x02]),
            y: i16::from_le_bytes([0x03, 0x04]),
            z: i16::from_le_bytes([0x05, 0x86]),
        })
    );
    assert_eq!(dev.destroy().ops, vec![burst(0x28, 6)]);
}

#[test]
fn converting_a_raw_sample_gives_the_acceleration() {
    let mut dev = Lis2dtw12::new(bus_with_samples(16384, -16384, 16));
    assert_eq!(dev.set_mode(Mode::ContinuousLowPower3), Ok(()));
    assert_eq!(dev.set_full_scale(FullScale::G4), Ok(()));
    let raw = dev.get_x_accel_raw().unwrap();
    let direct = dev.get_x_accel().unwrap();
    assert_eq!(FullScale::G4.convert_raw_i16_to_ug(raw, Mode::ContinuousLowPower3), direct);
    assert_eq!(direct, 4096 * 488);
}

#[test]
fn acceleration_follows_mode_and_full_scale() {
    let mut dev = Lis2dtw12::new(bus_with_samples(16384, -16384, 16));
    assert_eq!(dev.get_x_accel(), Ok(1024 * 244));
    assert_eq!(dev.get_y_accel(), Ok(-1024 * 244));
    assert_eq!(dev.get_z_accel(), Ok(244));
    assert_eq!(dev.set_mode(Mode::ContinuousLowPower2), Ok(()));
    assert_eq!(dev.set_full_scale(FullScale::G8), Ok(()));
    assert_eq!(dev.get_x_accel(), Ok(4096 * 976));
    assert_eq!(dev.get_y_accel(), Ok(-4096 * 976));
    assert_eq!(dev.get_z_accel(), Ok(4 * 976));
    assert_eq!(
        dev.get_accel_data(),
        Ok(AccelerationData { x: 4096 * 976, y: -4096 * 976, z: 4 * 976 })
    );
}

#[test]
fn reset_returns_after_the_write_whatever_the_device_reports() {
    let mut bus = SimBus::with(0x21, 0x04);
    bus.busy_polls = 1000;
    let mut dev = Lis2dtw12::new(bus);
    assert_eq!(dev.reset_settings(), Ok(()));
    let bus = dev.destroy();
    assert_eq!(bus.ops, vec![read1(0x21), write1(0x21, 0x44)]);
    assert_eq!(bus.busy_polls, 1000);
}

#[test]
fn reset_puts_the_remembered_settings_back_to_defaults() {
    let mut dev = Lis2dtw12::new(bus_with_samples(16384, 0, 0));
    assert_eq!(dev.set_mode(Mode::HighPerformance), Ok(()));
    assert_eq!(dev.set_full_scale(FullScale::G16), Ok(()));
    assert_eq!(dev.get_x_accel(), Ok(4096 * 1952));
    assert_eq!(dev.reset_settings(), Ok(()));
    assert_eq!(dev.get_x_accel(), Ok(1024 * 244));
}

#[test]
fn reset_status_follows_the_reset_bit() {
    let mut dev = Lis2dtw12::new(SimBus::with(0x21, 0xBF));
    assert_eq!(dev.get_reset_complete(), Ok(true));
    let mut bus = SimBus::with(0x21, 0x40);
    bus.busy_polls = 1;
    let mut dev = Lis2dtw12::new(bus);
    assert_eq!(dev.get_reset_complete(), Ok(false));
    assert_eq!(dev.get_reset_complete(), Ok(true));
}

#[test]
fn polling_ends_with_the_first_read_that_shows_the_reset_bit_cleared() {
    for n in [0u32, 1, 2, 7] {
        let mut bus = SimBus::new();
        bus.busy_polls = n;
        let mut dev = Lis2dtw12::new(bus);
        assert_eq!(dev.reset_settings(), Ok(()));
        assert_eq!(dev.poll_reset_complete(100), Ok(true));
        let bus = dev.destroy();
        assert_eq!(bus.ops.len(), 2 + n as usize + 1);
        assert!(bus.ops[2..].iter().all(|op| *op == read1(0x21)));
    }
}

#[test]
fn polling_gives_up_after_the_given_number_of_reads() {
    let mut bus = SimBus::new();
    bus.busy_polls = 5;
    let mut dev = Lis2dtw12::new(bus);
    assert_eq!(dev.reset_settings(), Ok(()));
    assert_eq!(dev.poll_reset_complete(0), Ok(false));
    assert_eq!(dev.poll_reset_complete(3), Ok(false));
    assert_eq!(dev.poll_reset_complete(3), Ok(true));
    assert_eq!(dev.destroy().ops.len(), 2 + 3 + 3);
}

#[test]
fn polling_stops_at_a_failed_read() {
    let mut bus = SimBus::new();
    bus.busy_polls = 5;
    bus.fail_at = Some(4);
    let mut dev = Lis2dtw12::new(bus);
    assert_eq!(dev.reset_settings(), Ok(()));
    assert_eq!(dev.poll_reset_complete(10), Err(BusError(4)));
    assert_eq!(dev.destroy().ops.len(), 5);
}

#[test]
fn a_failed_read_is_returned_and_nothing_is_written() {
    let mut bus = bus_with_samples(1600, 0, 0);
    bus.fail_at = Some(0);
    let mut dev = Lis2dtw12::new(bus);
    assert_eq!(dev.set_mode(Mode::HighPerformance), Err(BusError(0)));
    assert_eq!(dev.get_x_accel(), Ok(100 * 244));
    let bus = dev.destroy();
    assert_eq!(bus.ops, vec![read1(0x20), burst(0x28, 2)]);
    assert_eq!(bus.regs[0x20], 0);
}

#[test]
fn a_failed_write_leaves_the_remembered_mode() {
    let mut bus = bus_with_samples(1600, 0, 0);
    bus.fail_at = Some(1);
    let mut dev = Lis2dtw12::new(bus);
    assert_eq!(dev.set_mode(Mode::HighPerformance), Err(BusError(1)));
    assert_eq!(dev.get_x_accel(), Ok(100 * 244));
    assert_eq!(dev.destroy().ops, vec![read1(0x20), write1(0x20, 0x04), burst(0x28, 2)]);
}

#[test]
fn a_failed_write_leaves_the_remembered_full_scale() {
    for fail_at in 0..2usize {
        let mut bus = bus_with_samples(16, 0, 0);
        bus.fail_at = Some(fail_at);
        let mut dev = Lis2dtw12::new(bus);
        assert_eq!(dev.set_full_scale(FullScale::G16), Err(BusError(fail_at)));
        assert_eq!(dev.get_x_accel(), Ok(244));
    }
}

#[test]
fn a_failed_reset_leaves_the_remembered_settings() {
    for fail_at in 2..4usize {
        let mut bus = bus_with_samples(16384, 0, 0);
        bus.fail_at = Some(fail_at + 2);
        let mut dev = Lis2dtw12::new(bus);
        assert_eq!(dev.set_mode(Mode::HighPerformance), Ok(()));
        assert_eq!(dev.set_full_scale(FullScale::G16), Ok(()));
        assert_eq!(dev.reset_settings(), Err(BusError(fail_at + 2)));
        assert_eq!(dev.get_x_accel(), Ok(4096 * 1952));
    }
}

#[test]
fn failed_reads_are_returned_by_every_getter() {
    let failing = || {
        let mut bus = SimBus::new();
        bus.fail_at = Some(0);
        Lis2dtw12::new(bus)
    };
    assert_eq!(failing().get_device_id(), Err(BusError(0)));
    assert_eq!(failing().get_temperature_raw(), Err(BusError(0)));
    assert_eq!(failing().get_temperature(), Err(BusError(0)));
    assert_eq!(failing().get_status(), Err(BusError(0)));
    assert_eq!(failing().get_event_status(), Err(BusError(0)));
    assert_eq!(failing().get_all_sources(), Err(BusError(0)));
    assert_eq!(failing().get_x_accel_raw(), Err(BusError(0)));
    assert_eq!(failing().get_y_accel(), Err(BusError(0)));
    assert_eq!(failing().get_accel_data_raw(), Err(BusError(0)));
    assert_eq!(failing().get_accel_data(), Err(BusError(0)));
    assert_eq!(failing().get_fifo_samples_status(), Err(BusError(0)));
    assert_eq!(failing().get_reset_complete(), Err(BusError(0)));
    assert_eq!(failing().configure_int1_pad(Int1PadConfig::default()), Err(BusError(0)));
    assert_eq!(failing().set_x_offset(1), Err(BusError(0)));
    assert_eq!(failing().enable_interrupts(true), Err(BusError(0)));
}

#[test]
fn blocking_reset_returns_once_the_device_reports_the_reset_bit_cleared() {
    for n in [0u32, 1, 3, 10] {
        let mut bus = bus_with_samples(16384, 0, 0);
        bus.busy_polls = n;
        let mut dev = Lis2dtw12::new(bus);
        assert_eq!(dev.set_mode(Mode::HighPerformance), Ok(()));
        assert_eq!(dev.reset_settings_blocking(1000), Ok(true));
        assert_eq!(dev.get_x_accel(), Ok(1024 * 244));
        let bus = dev.destroy();
        assert_eq!(bus.regs[0x21] & 0x40, 0);
        assert_eq!(bus.ops.len(), 2 + 2 + n as usize + 1 + 1);
        assert_eq!(bus.ops[2..4], [read1(0x21), write1(0x21, 0x40)]);
        assert!(bus.ops[4..5 + n as usize].iter().all(|op| *op == read1(0x21)));
    }
}

#[test]
fn blocking_reset_reports_a_device_that_stays_busy() {
    let mut bus = SimBus::new();
    bus.busy_polls = 10;
    let mut dev = Lis2dtw12::new(bus);
    assert_eq!(dev.reset_settings_blocking(4), Ok(false));
    let bus = dev.destroy();
    assert_eq!(bus.ops.len(), 2 + 4);
    assert_eq!(bus.regs[0x21] & 0x40, 0x40);
}

#[test]
fn blocking_reset_does_not_poll_after_a_failed_write() {
    for fail_at in 0..2usize {
        let mut bus = bus_with_samples(16, 0, 0);
        bus.fail_at = Some(fail_at);
        let mut dev = Lis2dtw12::new(bus);
        assert_eq!(dev.reset_settings_blocking(10), Err(BusError(fail_at)));
        assert_eq!(dev.destroy().ops.len(), fail_at + 1);
    }
}

#[test]
fn blocking_reset_returns_the_error_of_a_failed_poll() {
    let mut bus = SimBus::new();
    bus.busy_polls = 10;
    bus.fail_at = Some(3);
    let mut dev = Lis2dtw12::new(bus);
    assert_eq!(dev.reset_settings_blocking(10), Err(BusError(3)));
    assert_eq!(dev.destroy().ops.len(), 4);
}

const DUMPED: [(Register, u8); 19] = [
    (Register::CTRL1, 0x20),
    (Register::CTRL2, 0x21),
    (Register::CTRL3, 0x22),
    (Register::CTRL4_INT1_PAD_CTRL, 0x23),
    (Register::CTRL5_INT2_PAD_CTRL, 0x24),
    (Register::CTRL6, 0x25),
    (Register::FIFO_CTRL, 0x2E),
    (Register::FIFO_SAMPLES, 0x2F),
    (Register::TAP_THS_X, 0x30),
    (Register::TAP_THS_Y, 0x31),
    (Register::TAP_THS_Z, 0x32),
    (Register::INT_DUR, 0x33),
    (Register::WAKE_UP_THS, 0x34),
    (Register::WAKE_UP_DUR, 0x35),
    (Register::FREE_FALL, 0x36),
    (Register::X_OFS_USR, 0x3C),
    (Register::Y_OFS_USR, 0x3D),
    (Register::Z_OFS_USR, 0x3E),
    (Register::CTRL7, 0x3F),
];

#[test]
fn dump_reads_the_configuration_registers_in_order() {
    let mut bus = SimBus::new();
    for (i, v) in bus.regs.iter_mut().enumerate() {
        *v = 0x80 ^ i as u8;
    }
    let mut dev = Lis2dtw12::new(bus);
    let values = dev.dump_registers().unwrap();
    let expected: Vec<(Register, u8)> = DUMPED.iter().map(|(r, a)| (*r, 0x80 ^ *a)).collect();
    assert_eq!(values, expected);
    let ops: Vec<Op> = DUMPED.iter().map(|(_, a)| read1(*a)).collect();
    assert_eq!(dev.destroy().ops, ops);
}

#[test]
fn dump_ends_at_the_first_failed_read() {
    for fail_at in [0usize, 7, 18] {
        let mut bus = SimBus::new();
        bus.fail_at = Some(fail_at);
        let mut dev = Lis2dtw12::new(bus);
        assert_eq!(dev.dump_registers(), Err(BusError(fail_at)));
        let ops: Vec<Op> = DUMPED[..fail_at + 1].iter().map(|(_, a)| read1(*a)).collect();
        assert_eq!(dev.destroy().ops, ops);
    }
}

#[test]
fn a_recorded_bus_hands_every_transaction_on() {
    let mut bus = Recorded::new(SimBus::with(0x0F, 0x44));
    let mut one = [0u8; 1];
    assert_eq!(bus.write_read(&[0x0F], &mut one), Ok(()));
    assert_eq!(one, [0x44]);
    assert_eq!(bus.write(&[0x20, 0x55]), Ok(()));
    let mut two = [0u8; 2];
    assert_eq!(bus.write_read(&[0xA0], &mut two), Ok(()));
    assert_eq!(two, [0x55, 0x00]);
    let bus = bus.into_inner();
    assert_eq!(bus.ops, vec![read1(0x0F), write1(0x20, 0x55), burst(0x20, 2)]);
}

#[test]
fn a_recorded_bus_hands_every_error_back() {
    let mut sim = SimBus::new();
    sim.fail_at = Some(1);
    let mut bus = Recorded::new(sim);
    assert_eq!(bus.write(&[0x20, 0x01]), Ok(()));
    assert_eq!(bus.write(&[0x20, 0x02]), Err(BusError(1)));
    assert_eq!(bus.into_inner().regs[0x20], 0x01);
}

#[test]
fn a_borrowed_bus_does_what_the_bus_does() {
    let mut bus = SimBus::with(0x0F, 0x44);
    bus.fail_at = Some(2);
    {
        let mut borrowed = &mut bus;
        let mut one = [0u8; 1];
        assert_eq!(<&mut SimBus as Interface>::write_read(&mut borrowed, &[0x0F], &mut one), Ok(()));
        assert_eq!(one, [0x44]);
        assert_eq!(<&mut SimBus as Interface>::write(&mut borrowed, &[0x20, 0x55]), Ok(()));
        assert_eq!(
            <&mut SimBus as Interface>::write(&mut borrowed, &[0x20, 0x66]),
            Err(BusError(2))
        );
        assert_eq!(
            <&mut SimBus as Interface>::write_read(&mut borrowed, &[0xA0], &mut one),
            Ok(())
        );
        assert_eq!(one, [0x55]);
    }
    assert_eq!(
        bus.ops,
        vec![read1(0x0F), write1(0x20, 0x55), write1(0x20, 0x66), burst(0x20, 1)]
    );
    assert_eq!(bus.regs[0x20], 0x55);
}
