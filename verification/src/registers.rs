//! Register map of the device: the address of every register and the mask and
//! shift of every field inside one.
use vstd::prelude::*;

verus! {

/// A register of the device.
#[allow(non_camel_case_types)]
#[derive(Debug, Copy, Clone, PartialEq, Eq, Structural)]
pub enum Register {
    /// Temperature output, low byte (0x0D)
    OUT_T_L,
    /// Temperature output, high byte (0x0E)
    OUT_T_H,
    /// Device identification (0x0F)
    WHO_AM_I,
    /// Control register 1: data rate, mode, low-power mode (0x20)
    CTRL1,
    /// Control register 2: boot, soft reset, bus options (0x21)
    CTRL2,
    /// Control register 3 (0x22)
    CTRL3,
    /// Routing of interrupt signals to the INT1 pad (0x23)
    CTRL4_INT1_PAD_CTRL,
    /// Routing of interrupt signals to the INT2 pad (0x24)
    CTRL5_INT2_PAD_CTRL,
    /// Control register 6: bandwidth, full scale, filter path, low noise (0x25)
    CTRL6,
    /// Status (0x27)
    STATUS,
    /// X-axis output, low byte (0x28)
    OUT_X_L,
    /// X-axis output, high byte (0x29)
    OUT_X_H,
    /// Y-axis output, low byte (0x2A)
    OUT_Y_L,
    /// Y-axis output, high byte (0x2B)
    OUT_Y_H,
    /// Z-axis output, low byte (0x2C)
    OUT_Z_L,
    /// Z-axis output, high byte (0x2D)
    OUT_Z_H,
    /// FIFO control (0x2E)
    FIFO_CTRL,
    /// Number of unread FIFO samples and FIFO flags (0x2F)
    FIFO_SAMPLES,
    /// Tap threshold X, 4D enable, 6D threshold (0x30)
    TAP_THS_X,
    /// Tap threshold Y, tap axis priority (0x31)
    TAP_THS_Y,
    /// Tap threshold Z, tap axis enables (0x32)
    TAP_THS_Z,
    /// Tap latency, quiet and shock durations (0x33)
    INT_DUR,
    /// Wake-up threshold, sleep enable, single/double tap select (0x34)
    WAKE_UP_THS,
    /// Wake-up and sleep durations (0x35)
    WAKE_UP_DUR,
    /// Free-fall duration and threshold (0x36)
    FREE_FALL,
    /// Event status (0x37)
    STATUS_DUP,
    /// Wake-up source (0x38)
    WAKE_UP_SRC,
    /// Tap source (0x39)
    TAP_SRC,
    /// 6D source (0x3A)
    SIXD_SRC,
    /// All interrupt sources; reading it clears the latched flags (0x3B)
    ALL_INT_SRC,
    /// User offset, X axis (0x3C)
    X_OFS_USR,
    /// User offset, Y axis (0x3D)
    Y_OFS_USR,
    /// User offset, Z axis (0x3E)
    Z_OFS_USR,
    /// Control register 7: interrupt and offset options (0x3F)
    CTRL7,
}

impl Register {
    /// The address of the register as the datasheet gives it.
    pub open spec fn addr_spec(self) -> u8 {
        match self {
            Register::OUT_T_L => 0x0D,
            Register::OUT_T_H => 0x0E,
            Register::WHO_AM_I => 0x0F,
            Register::CTRL1 => 0x20,
            Register::CTRL2 => 0x21,
            Register::CTRL3 => 0x22,
            Register::CTRL4_INT1_PAD_CTRL => 0x23,
            Register::CTRL5_INT2_PAD_CTRL => 0x24,
            Register::CTRL6 => 0x25,
            Register::STATUS => 0x27,
            Register::OUT_X_L => 0x28,
            Register::OUT_X_H => 0x29,
            Register::OUT_Y_L => 0x2A,
            Register::OUT_Y_H => 0x2B,
            Register::OUT_Z_L => 0x2C,
            Register::OUT_Z_H => 0x2D,
            Register::FIFO_CTRL => 0x2E,
            Register::FIFO_SAMPLES => 0x2F,
            Register::TAP_THS_X => 0x30,
            Register::TAP_THS_Y => 0x31,
            Register::TAP_THS_Z => 0x32,
            Register::INT_DUR => 0x33,
            Register::WAKE_UP_THS => 0x34,
            Register::WAKE_UP_DUR => 0x35,
            Register::FREE_FALL => 0x36,
            Register::STATUS_DUP => 0x37,
            Register::WAKE_UP_SRC => 0x38,
            Register::TAP_SRC => 0x39,
            Register::SIXD_SRC => 0x3A,
            Register::ALL_INT_SRC => 0x3B,
            Register::X_OFS_USR => 0x3C,
            Register::Y_OFS_USR => 0x3D,
            Register::Z_OFS_USR => 0x3E,
            Register::CTRL7 => 0x3F,
        }
    }

    /// Two registers at the same address are the same register.
    pub proof fn lemma_addr_injective(a: Self, b: Self)
        requires
            a.addr_spec() == b.addr_spec(),
        ensures
            a == b,
    {
    }

    /// The address byte that selects this register on the bus.
    pub fn addr(self) -> (a: u8)
        ensures
            a == self.addr_spec(),
            a <= 0x3F,
    {
        match self {
            Register::OUT_T_L => 0x0D,
            Register::OUT_T_H => 0x0E,
            Register::WHO_AM_I => 0x0F,
            Register::CTRL1 => 0x20,
            Register::CTRL2 => 0x21,
            Register::CTRL3 => 0x22,
            Register::CTRL4_INT1_PAD_CTRL => 0x23,
            Register::CTRL5_INT2_PAD_CTRL => 0x24,
            Register::CTRL6 => 0x25,
            Register::STATUS => 0x27,
            Register::OUT_X_L => 0x28,
            Register::OUT_X_H => 0x29,
            Register::OUT_Y_L => 0x2A,
            Register::OUT_Y_H => 0x2B,
            Register::OUT_Z_L => 0x2C,
            Register::OUT_Z_H => 0x2D,
            Register::FIFO_CTRL => 0x2E,
            Register::FIFO_SAMPLES => 0x2F,
            Register::TAP_THS_X => 0x30,
            Register::TAP_THS_Y => 0x31,
            Register::TAP_THS_Z => 0x32,
            Register::INT_DUR => 0x33,
            Register::WAKE_UP_THS => 0x34,
            Register::WAKE_UP_DUR => 0x35,
            Register::FREE_FALL => 0x36,
            Register::STATUS_DUP => 0x37,
            Register::WAKE_UP_SRC => 0x38,
            Register::TAP_SRC => 0x39,
            Register::SIXD_SRC => 0x3A,
            Register::ALL_INT_SRC => 0x3B,
            Register::X_OFS_USR => 0x3C,
            Register::Y_OFS_USR => 0x3D,
            Register::Z_OFS_USR => 0x3E,
            Register::CTRL7 => 0x3F,
        }
    }
}

/// Added to a register's address to select a burst read: the device then moves
/// on to the next address after each byte.
pub const MULTI_READ_FLAG: u8 = 0b1000_0000;

impl Register {
    /// The address byte that starts a burst read at this register: the
    /// address with its highest bit set.
    pub open spec fn burst_addr_spec(self) -> u8 {
        (self.addr_spec() + 0x80) as u8
    }

    /// The address byte that starts a burst read at this register.
    pub fn burst_addr(self) -> (a: u8)
        ensures
            a == self.burst_addr_spec(),
            a >= 0x80,
    {
        let a = self.addr();
        assert(a <= 0x3F ==> a | 0x80 == a + 0x80) by (bit_vector);
        a | MULTI_READ_FLAG
    }
}

// CTRL1
pub const ODR_MASK: u8 = 0b1111_0000;
pub const ODR_SHIFT: u8 = 4;
pub const MODE_MASK: u8 = 0b0000_1100;
pub const MODE_SHIFT: u8 = 2;
pub const LP_MODE_MASK: u8 = 0b0000_0011;
pub const LP_MODE_SHIFT: u8 = 0;
/// The MODE and LP_MODE fields together
pub const MODE_LP_MODE_MASK: u8 = 0b0000_1111;

// CTRL2
pub const SOFT_RESET: u8 = 0b0100_0000;
pub const CS_PU_DISC: u8 = 0b0001_0000;
pub const BDU: u8 = 0b0000_1000;

// CTRL6
pub const BW_FILT_MASK: u8 = 0b1100_0000;
pub const BW_FILT_SHIFT: u8 = 6;
pub const FS_MASK: u8 = 0b0011_0000;
pub const FS_SHIFT: u8 = 4;
pub const FDS: u8 = 0b0000_1000;
pub const LOW_NOISE: u8 = 0b0000_0100;

// STATUS
pub const FIFO_THS: u8 = 0b1000_0000;
pub const WU_IA: u8 = 0b0100_0000;
pub const SLEEP_STATE: u8 = 0b0010_0000;
pub const DOUBLE_TAP: u8 = 0b0001_0000;
pub const SINGLE_TAP: u8 = 0b0000_1000;
pub const D6D_IA: u8 = 0b0000_0100;
pub const FF_IA: u8 = 0b0000_0010;
pub const DRDY: u8 = 0b0000_0001;

// FIFO_CTRL
pub const FMODE_MASK: u8 = 0b1110_0000;
pub const FMODE_SHIFT: u8 = 5;
pub const FTH_MASK: u8 = 0b0001_1111;
pub const FTH_SHIFT: u8 = 0;

// FIFO_SAMPLES
pub const FIFO_FTH: u8 = 0b1000_0000;
pub const FIFO_OVR: u8 = 0b0100_0000;
pub const FIFO_DIFF: u8 = 0b0011_1111;

// TAP_THS_X/Y/Z
pub const TAP_THS_MASK: u8 = 0b0001_1111;
pub const TAP_THS_SHIFT: u8 = 0;

// TAP_THS_X
pub const EN_4D: u8 = 0b1000_0000;
pub const THS_6D_MASK: u8 = 0b0110_0000;
pub const THS_6D_SHIFT: u8 = 5;

// TAP_THS_Y
pub const TAP_PRIOR_MASK: u8 = 0b1110_0000;
pub const TAP_PRIOR_SHIFT: u8 = 5;

// TAP_THS_Z
pub const TAP_XYZ_MASK: u8 = 0b1110_0000;
pub const TAP_XYZ_SHIFT: u8 = 5;

// INT_DUR
pub const LATENCY_MASK: u8 = 0b1111_0000;
pub const LATENCY_SHIFT: u8 = 4;
pub const QUIET_MASK: u8 = 0b0000_1100;
pub const QUIET_SHIFT: u8 = 2;
pub const SHOCK_MASK: u8 = 0b0000_0011;
pub const SHOCK_SHIFT: u8 = 0;

// WAKE_UP_THS
pub const SINGLE_DOUBLE_TAP: u8 = 0b1000_0000;
pub const SLEEP_ON: u8 = 0b0100_0000;
pub const WK_THS_MASK: u8 = 0b0011_1111;
pub const WK_THS_SHIFT: u8 = 0;

// WAKE_UP_DUR
pub const FF_DUR5: u8 = 0b1000_0000;
pub const WK_DUR_MASK: u8 = 0b0110_0000;
pub const WK_DUR_SHIFT: u8 = 5;
pub const STATIONARY: u8 = 0b0001_0000;
pub const SLEEP_DUR_MASK: u8 = 0b0000_1111;
pub const SLEEP_DUR_SHIFT: u8 = 0;

// FREE_FALL
pub const FF_DUR_MASK: u8 = 0b1111_1000;
pub const FF_DUR_SHIFT: u8 = 3;
pub const FF_THS_MASK: u8 = 0b0000_0111;
pub const FF_THS_SHIFT: u8 = 0;

// STATUS_DUP
pub const OVR: u8 = 0b1000_0000;
pub const DRDY_T: u8 = 0b0100_0000;
pub const SLEEP_STATE_IA: u8 = 0b0010_0000;
// the remaining bits are those of STATUS

// WAKE_UP_SRC
pub const WAKE_UP_FF_IA: u8 = 0b0010_0000;
pub const WAKE_UP_SLEEP_STATE_IA: u8 = 0b0001_0000;
pub const WAKE_UP_WU_IA: u8 = 0b0000_1000;
pub const X_WU: u8 = 0b0000_0100;
pub const Y_WU: u8 = 0b0000_0010;
pub const Z_WU: u8 = 0b0000_0001;

// TAP_SRC
pub const TAP_IA: u8 = 0b0100_0000;
pub const TAP_SRC_SINGLE_TAP: u8 = 0b0010_0000;
pub const TAP_SRC_DOUBLE_TAP: u8 = 0b0001_0000;
pub const TAP_SIGN: u8 = 0b0000_1000;
pub const X_TAP: u8 = 0b0000_0100;
pub const Y_TAP: u8 = 0b0000_0010;
pub const Z_TAP: u8 = 0b0000_0001;

// SIXD_SRC
pub const IA_6D: u8 = 0b0100_0000;
pub const ZH: u8 = 0b0010_0000;
pub const ZL: u8 = 0b0001_0000;
pub const YH: u8 = 0b0000_1000;
pub const YL: u8 = 0b0000_0100;
pub const XH: u8 = 0b0000_0010;
pub const XL: u8 = 0b0000_0001;

// ALL_INT_SRC
pub const ALL_INT_SLEEP_CHANGE_IA: u8 = 0b0010_0000;
pub const ALL_INT_6D_IA: u8 = 0b0001_0000;
pub const ALL_INT_DOUBLE_TAP: u8 = 0b0000_1000;
pub const ALL_INT_SINGLE_TAP: u8 = 0b0000_0100;
pub const ALL_INT_WU_IA: u8 = 0b0000_0010;
pub const ALL_INT_FF_IA: u8 = 0b0000_0001;

// CTRL7
pub const DRDY_PULSED: u8 = 0b1000_0000;
pub const INT2_ON_INT1: u8 = 0b0100_0000;
pub const INTERRUPTS_ENABLE: u8 = 0b0010_0000;
pub const USR_OFF_ON_OUT: u8 = 0b0001_0000;
pub const USR_OFF_ON_WU: u8 = 0b0000_1000;
pub const USR_OFF_W: u8 = 0b0000_0100;
pub const HP_REF_MODE: u8 = 0b0000_0010;
pub const LPASS_ON6D: u8 = 0b0000_0001;

// CTRL4_INT1_PAD_CTRL
pub const INT1_6D: u8 = 0b1000_0000;
pub const INT1_SINGLE_TAP: u8 = 0b0100_0000;
pub const INT1_WU: u8 = 0b0010_0000;
pub const INT1_FF: u8 = 0b0001_0000;
pub const INT1_TAP: u8 = 0b0000_1000;
pub const INT1_DIFF5: u8 = 0b0000_0100;
pub const INT1_FTH: u8 = 0b0000_0010;
pub const INT1_DRDY: u8 = 0b0000_0001;

// CTRL5_INT2_PAD_CTRL
pub const INT2_SLEEP_STATE: u8 = 0b1000_0000;
pub const INT2_SLEEP_CHG: u8 = 0b0100_0000;
pub const INT2_BOOT: u8 = 0b0010_0000;
pub const INT2_DRDY_T: u8 = 0b0001_0000;
pub const INT2_OVR: u8 = 0b0000_1000;
pub const INT2_DIFF5: u8 = 0b0000_0100;
pub const INT2_FTH: u8 = 0b0000_0010;
pub const INT2_DRDY: u8 = 0b0000_0001;

} // verus!
