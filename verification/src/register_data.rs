//! What the status and source registers report, decoded from their raw bytes,
//! and the sample types that the driver returns.
use vstd::prelude::*;
use vstd::std_specs::convert::FromSpecImpl;
use crate::registers::{
    ALL_INT_6D_IA, ALL_INT_DOUBLE_TAP, ALL_INT_FF_IA, ALL_INT_SINGLE_TAP,
    ALL_INT_SLEEP_CHANGE_IA, ALL_INT_WU_IA, D6D_IA, DOUBLE_TAP, DRDY, DRDY_T, FF_IA, FIFO_DIFF,
    FIFO_FTH, FIFO_OVR, FIFO_THS, IA_6D, OVR, SINGLE_TAP, SLEEP_STATE, SLEEP_STATE_IA, TAP_IA,
    TAP_SIGN, TAP_SRC_DOUBLE_TAP, TAP_SRC_SINGLE_TAP, WAKE_UP_FF_IA, WAKE_UP_SLEEP_STATE_IA,
    WAKE_UP_WU_IA, WU_IA, XH, XL, X_TAP, X_WU, YH, YL, Y_TAP, Y_WU, ZH, ZL, Z_TAP, Z_WU,
};

verus! {

/// Sign of a tap event.
#[derive(Debug, Copy, Clone, PartialEq, Eq, Structural)]
pub enum Sign {
    /// Positive: the sign bit is 0
    Positive,
    /// Negative: the sign bit is 1
    Negative,
}

/// Acceleration on the three axes, in micro-g.
#[derive(Debug, Copy, Clone, PartialEq, Eq, Structural)]
pub struct AccelerationData {
    /// X-axis acceleration
    pub x: i32,
    /// Y-axis acceleration
    pub y: i32,
    /// Z-axis acceleration
    pub z: i32,
}

/// Acceleration on the three axes, in counts.
#[derive(Debug, Copy, Clone, PartialEq, Eq, Structural)]
pub struct RawAccelerationData {
    /// X-axis acceleration
    pub x: i16,
    /// Y-axis acceleration
    pub y: i16,
    /// Z-axis acceleration
    pub z: i16,
}

/// The status register, decoded.
#[derive(Debug, Copy, Clone, PartialEq, Eq, Structural)]
pub struct Status {
    /// FIFO filling has reached the threshold level
    pub fifo_threshold: bool,
    /// Wake-up event detected
    pub wake_up_event: bool,
    /// Sleep event detected
    pub sleep_event: bool,
    /// Double-tap event detected
    pub double_tap_event: bool,
    /// Single-tap event detected
    pub single_tap_event: bool,
    /// Change in position detected (portrait, landscape, face-up, face-down)
    pub position_change_event: bool,
    /// Free-fall event detected
    pub free_fall_event: bool,
    /// New X-, Y- and Z-axis data available
    pub data_ready: bool,
}

impl Status {
    /// What a register byte reports: every byte stands for a value.
    pub open spec fn decode(value: u8) -> Self {
        Status {
            fifo_threshold: value & FIFO_THS != 0,
            wake_up_event: value & WU_IA != 0,
            sleep_event: value & SLEEP_STATE != 0,
            double_tap_event: value & DOUBLE_TAP != 0,
            single_tap_event: value & SINGLE_TAP != 0,
            position_change_event: value & D6D_IA != 0,
            free_fall_event: value & FF_IA != 0,
            data_ready: value & DRDY != 0,
        }
    }
}

impl From<u8> for Status {
    /// What the register byte reports: `decode`.
    fn from(value: u8) -> (r: Self) {
        Status {
            fifo_threshold: value & FIFO_THS != 0,
            wake_up_event: value & WU_IA != 0,
            sleep_event: value & SLEEP_STATE != 0,
            double_tap_event: value & DOUBLE_TAP != 0,
            single_tap_event: value & SINGLE_TAP != 0,
            position_change_event: value & D6D_IA != 0,
            free_fall_event: value & FF_IA != 0,
            data_ready: value & DRDY != 0,
        }
    }
}

impl FromSpecImpl<u8> for Status {
    open spec fn obeys_from_spec() -> bool {
        true
    }

    open spec fn from_spec(value: u8) -> Self {
        Self::decode(value)
    }
}

/// The event status register, decoded. It differs from the status register in its two highest bits.
#[derive(Debug, Copy, Clone, PartialEq, Eq, Structural)]
pub struct EventStatus {
    /// FIFO is overrun
    pub fifo_overrun: bool,
    /// New temperature data available
    pub temperature_data_ready: bool,
    /// Sleep event detected
    pub sleep_event: bool,
    /// Double-tap event detected
    pub double_tap_event: bool,
    /// Single-tap event detected
    pub single_tap_event: bool,
    /// Change in position detected (portrait, landscape, face-up, face-down)
    pub position_change_event: bool,
    /// Free-fall event detected
    pub free_fall_event: bool,
    /// New X-, Y- and Z-axis data available
    pub data_ready: bool,
}

impl EventStatus {
    /// What a register byte reports: every byte stands for a value.
    pub open spec fn decode(value: u8) -> Self {
        EventStatus {
            fifo_overrun: value & OVR != 0,
            temperature_data_ready: value & DRDY_T != 0,
            sleep_event: value & SLEEP_STATE_IA != 0,
            double_tap_event: value & DOUBLE_TAP != 0,
            single_tap_event: value & SINGLE_TAP != 0,
            position_change_event: value & D6D_IA != 0,
            free_fall_event: value & FF_IA != 0,
            data_ready: value & DRDY != 0,
        }
    }
}

impl From<u8> for EventStatus {
    /// What the register byte reports: `decode`.
    fn from(value: u8) -> (r: Self) {
        EventStatus {
            fifo_overrun: value & OVR != 0,
            temperature_data_ready: value & DRDY_T != 0,
            sleep_event: value & SLEEP_STATE_IA != 0,
            double_tap_event: value & DOUBLE_TAP != 0,
            single_tap_event: value & SINGLE_TAP != 0,
            position_change_event: value & D6D_IA != 0,
            free_fall_event: value & FF_IA != 0,
            data_ready: value & DRDY != 0,
        }
    }
}

impl FromSpecImpl<u8> for EventStatus {
    open spec fn obeys_from_spec() -> bool {
        true
    }

    open spec fn from_spec(value: u8) -> Self {
        Self::decode(value)
    }
}

/// The FIFO samples register, decoded.
#[derive(Debug, Copy, Clone, PartialEq, Eq, Structural)]
pub struct FifoSamplesStatus {
    /// FIFO filling has reached the threshold level
    pub threshold: bool,
    /// FIFO is overrun
    pub overrun: bool,
    /// Number of unread samples in the FIFO
    pub samples: u8,
}

impl FifoSamplesStatus {
    /// What a register byte reports: every byte stands for a value.
    pub open spec fn decode(value: u8) -> Self {
        FifoSamplesStatus {
            threshold: value & FIFO_FTH != 0,
            overrun: value & FIFO_OVR != 0,
            samples: value & FIFO_DIFF,
        }
    }
}

impl From<u8> for FifoSamplesStatus {
    /// What the register byte reports: `decode`.
    fn from(value: u8) -> (r: Self) {
        FifoSamplesStatus {
            threshold: value & FIFO_FTH != 0,
            overrun: value & FIFO_OVR != 0,
            samples: value & FIFO_DIFF,
        }
    }
}

impl FromSpecImpl<u8> for FifoSamplesStatus {
    open spec fn obeys_from_spec() -> bool {
        true
    }

    open spec fn from_spec(value: u8) -> Self {
        Self::decode(value)
    }
}

/// The wake-up source register, decoded.
#[derive(Debug, Copy, Clone, PartialEq, Eq, Structural)]
pub struct WakeUpSource {
    /// Free-fall event detected
    pub free_fall_event: bool,
    /// Sleep event detected
    pub sleep_event: bool,
    /// Wake-up event detected
    pub wake_up_event: bool,
    /// Wake-up event on the X axis
    pub x_wake_up_event: bool,
    /// Wake-up event on the Y axis
    pub y_wake_up_event: bool,
    /// Wake-up event on the Z axis
    pub z_wake_up_event: bool,
}

impl WakeUpSource {
    /// What a register byte reports: every byte stands for a value.
    pub open spec fn decode(value: u8) -> Self {
        WakeUpSource {
            free_fall_event: value & WAKE_UP_FF_IA != 0,
            sleep_event: value & WAKE_UP_SLEEP_STATE_IA != 0,
            wake_up_event: value & WAKE_UP_WU_IA != 0,
            x_wake_up_event: value & X_WU != 0,
            y_wake_up_event: value & Y_WU != 0,
            z_wake_up_event: value & Z_WU != 0,
        }
    }
}

impl From<u8> for WakeUpSource {
    /// What the register byte reports: `decode`.
    fn from(value: u8) -> (r: Self) {
        WakeUpSource {
            free_fall_event: value & WAKE_UP_FF_IA != 0,
            sleep_event: value & WAKE_UP_SLEEP_STATE_IA != 0,
            wake_up_event: value & WAKE_UP_WU_IA != 0,
            x_wake_up_event: value & X_WU != 0,
            y_wake_up_event: value & Y_WU != 0,
            z_wake_up_event: value & Z_WU != 0,
        }
    }
}

impl FromSpecImpl<u8> for WakeUpSource {
    open spec fn obeys_from_spec() -> bool {
        true
    }

    open spec fn from_spec(value: u8) -> Self {
        Self::decode(value)
    }
}

/// The tap source register, decoded.
#[derive(Debug, Copy, Clone, PartialEq, Eq, Structural)]
pub struct TapSource {
    /// Tap event detected
    pub tap_event: bool,
    /// Single-tap event detected
    pub single_tap_event: bool,
    /// Double-tap event detected
    pub double_tap_event: bool,
    /// Sign of the acceleration that the tap was detected with
    pub tap_sign: Sign,
    /// Tap event on the X axis
    pub x_tap_event: bool,
    /// Tap event on the Y axis
    pub y_tap_event: bool,
    /// Tap event on the Z axis
    pub z_tap_event: bool,
}

impl TapSource {
    /// What a register byte reports: every byte stands for a value.
    pub open spec fn decode(value: u8) -> Self {
        TapSource {
            tap_event: value & TAP_IA != 0,
            single_tap_event: value & TAP_SRC_SINGLE_TAP != 0,
            double_tap_event: value & TAP_SRC_DOUBLE_TAP != 0,
            tap_sign: if value & TAP_SIGN == 0 {
                Sign::Positive
            } else {
                Sign::Negative
            },
            x_tap_event: value & X_TAP != 0,
            y_tap_event: value & Y_TAP != 0,
            z_tap_event: value & Z_TAP != 0,
        }
    }
}

impl From<u8> for TapSource {
    /// What the register byte reports: `decode`.
    fn from(value: u8) -> (r: Self) {
        TapSource {
            tap_event: value & TAP_IA != 0,
            single_tap_event: value & TAP_SRC_SINGLE_TAP != 0,
            double_tap_event: value & TAP_SRC_DOUBLE_TAP != 0,
            tap_sign: if value & TAP_SIGN == 0 {
                Sign::Positive
            } else {
                Sign::Negative
            },
            x_tap_event: value & X_TAP != 0,
            y_tap_event: value & Y_TAP != 0,
            z_tap_event: value & Z_TAP != 0,
        }
    }
}

impl FromSpecImpl<u8> for TapSource {
    open spec fn obeys_from_spec() -> bool {
        true
    }

    open spec fn from_spec(value: u8) -> Self {
        Self::decode(value)
    }
}

/// The 6D source register, decoded.
#[derive(Debug, Copy, Clone, PartialEq, Eq, Structural)]
pub struct SixDSource {
    /// Change in position detected (portrait, landscape, face-up, face-down)
    pub position_change_event: bool,
    /// ZH is over the threshold
    pub zh_over_threshold: bool,
    /// ZL is over the threshold
    pub zl_over_threshold: bool,
    /// YH is over the threshold
    pub yh_over_threshold: bool,
    /// YL is over the threshold
    pub yl_over_threshold: bool,
    /// XH is over the threshold
    pub xh_over_threshold: bool,
    /// XL is over the threshold
    pub xl_over_threshold: bool,
}

impl SixDSource {
    /// What a register byte reports: every byte stands for a value.
    pub open spec fn decode(value: u8) -> Self {
        SixDSource {
            position_change_event: value & IA_6D != 0,
            zh_over_threshold: value & ZH != 0,
            zl_over_threshold: value & ZL != 0,
            yh_over_threshold: value & YH != 0,
            yl_over_threshold: value & YL != 0,
            xh_over_threshold: value & XH != 0,
            xl_over_threshold: value & XL != 0,
        }
    }
}

impl From<u8> for SixDSource {
    /// What the register byte reports: `decode`.
    fn from(value: u8) -> (r: Self) {
        SixDSource {
            position_change_event: value & IA_6D != 0,
            zh_over_threshold: value & ZH != 0,
            zl_over_threshold: value & ZL != 0,
            yh_over_threshold: value & YH != 0,
            yl_over_threshold: value & YL != 0,
            xh_over_threshold: value & XH != 0,
            xl_over_threshold: value & XL != 0,
        }
    }
}

impl FromSpecImpl<u8> for SixDSource {
    open spec fn obeys_from_spec() -> bool {
        true
    }

    open spec fn from_spec(value: u8) -> Self {
        Self::decode(value)
    }
}

/// The register that gathers all interrupt sources, decoded.
#[derive(Debug, Copy, Clone, PartialEq, Eq, Structural)]
pub struct AllInterruptSources {
    /// Sleep change interrupt
    pub sleep_change_interrupt: bool,
    /// 6D interrupt
    pub six_d_interrupt: bool,
    /// Double-tap interrupt
    pub double_tap_interrupt: bool,
    /// Single-tap interrupt
    pub single_tap_interrupt: bool,
    /// Wake-up interrupt
    pub wake_up_interrupt: bool,
    /// Free-fall interrupt
    pub free_fall_interrupt: bool,
}

impl AllInterruptSources {
    /// What a register byte reports: every byte stands for a value.
    pub open spec fn decode(value: u8) -> Self {
        AllInterruptSources {
            sleep_change_interrupt: value & ALL_INT_SLEEP_CHANGE_IA != 0,
            six_d_interrupt: value & ALL_INT_6D_IA != 0,
            double_tap_interrupt: value & ALL_INT_DOUBLE_TAP != 0,
            single_tap_interrupt: value & ALL_INT_SINGLE_TAP != 0,
            wake_up_interrupt: value & ALL_INT_WU_IA != 0,
            free_fall_interrupt: value & ALL_INT_FF_IA != 0,
        }
    }
}

impl From<u8> for AllInterruptSources {
    /// What the register byte reports: `decode`.
    fn from(value: u8) -> (r: Self) {
        AllInterruptSources {
            sleep_change_interrupt: value & ALL_INT_SLEEP_CHANGE_IA != 0,
            six_d_interrupt: value & ALL_INT_6D_IA != 0,
            double_tap_interrupt: value & ALL_INT_DOUBLE_TAP != 0,
            single_tap_interrupt: value & ALL_INT_SINGLE_TAP != 0,
            wake_up_interrupt: value & ALL_INT_WU_IA != 0,
            free_fall_interrupt: value & ALL_INT_FF_IA != 0,
        }
    }
}

impl FromSpecImpl<u8> for AllInterruptSources {
    open spec fn obeys_from_spec() -> bool {
        true
    }

    open spec fn from_spec(value: u8) -> Self {
        Self::decode(value)
    }
}

/// The five source registers, read in one burst.
#[derive(Debug, Copy, Clone, PartialEq, Eq, Structural)]
pub struct AllSources {
    /// Event status register
    pub event_status: EventStatus,
    /// Wake-up source register
    pub wake_up_source: WakeUpSource,
    /// Tap source register
    pub tap_source: TapSource,
    /// 6D source register
    pub six_d_source: SixDSource,
    /// Register of all interrupt sources
    pub all_interrupt_sources: AllInterruptSources,
}

impl AllSources {
    /// What five bytes report, in the order of the registers' addresses.
    pub open spec fn decode(value: Seq<u8>) -> Self
        recommends
            value.len() == 5,
    {
        AllSources {
            event_status: EventStatus::decode(value[0]),
            wake_up_source: WakeUpSource::decode(value[1]),
            tap_source: TapSource::decode(value[2]),
            six_d_source: SixDSource::decode(value[3]),
            all_interrupt_sources: AllInterruptSources::decode(value[4]),
        }
    }
}

impl From<[u8; 5]> for AllSources {
    /// What the five bytes report: `decode`.
    fn from(value: [u8; 5]) -> (r: Self) {
        AllSources {
            event_status: EventStatus::from(value[0]),
            wake_up_source: WakeUpSource::from(value[1]),
            tap_source: TapSource::from(value[2]),
            six_d_source: SixDSource::from(value[3]),
            all_interrupt_sources: AllInterruptSources::from(value[4]),
        }
    }
}

impl FromSpecImpl<[u8; 5]> for AllSources {
    open spec fn obeys_from_spec() -> bool {
        true
    }

    open spec fn from_spec(value: [u8; 5]) -> Self {
        Self::decode(value@)
    }
}

/// The 16-bit two's-complement number whose low byte is `low` and whose high
/// byte is `high`.
pub open spec fn sample_value(low: u8, high: u8) -> int {
    if high >= 128 {
        low + 256 * high - 65536
    } else {
        low + 256 * high
    }
}

/// Joins the two bytes of a sample, low byte first on the wire.
pub fn raw_sample(low: u8, high: u8) -> (raw: i16)
    ensures
        raw == sample_value(low, high),
{
    assert(((high as i16) << 8u8) | (low as i16) == (if high >= 128 {
        low + 256 * high - 65536
    } else {
        low + 256 * high
    })) by (bit_vector);
    (high as i16) << 8 | low as i16
}

/// A temperature code in degrees Celsius times 256: the code counts 1/256 of
/// a degree from 25 degrees.
pub open spec fn temperature_value(raw: i16) -> int {
    25 * 256 + raw
}

/// Converts a temperature code to degrees Celsius times 256.
pub fn temperature_from_raw(raw: i16) -> (t: i32)
    ensures
        t == temperature_value(raw),
{
    6400 + raw as i32
}

/// The byte that stands for a signed offset in two's complement.
pub open spec fn offset_byte(offset: i8) -> int {
    if offset < 0 {
        offset + 256
    } else {
        offset as int
    }
}

/// The byte that stands for a signed offset in two's complement.
pub fn offset_to_byte(offset: i8) -> (b: u8)
    ensures
        b == offset_byte(offset),
{
    assert(offset as u8 == (if offset < 0 {
        offset + 256
    } else {
        offset as int
    })) by (bit_vector);
    #[verifier::truncate]
    (offset as u8)
}

} // verus!
