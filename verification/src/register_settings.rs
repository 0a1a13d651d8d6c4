//! Configuration settings: each closed enumeration with the bit pattern that
//! stands for it in its register field, and the two interrupt pad configurations.
use vstd::prelude::*;
use vstd::std_specs::convert::FromSpecImpl;
use crate::registers::{
    INT1_6D, INT1_DIFF5, INT1_DRDY, INT1_FF, INT1_FTH, INT1_SINGLE_TAP, INT1_TAP, INT1_WU,
    INT2_BOOT, INT2_DIFF5, INT2_DRDY, INT2_DRDY_T, INT2_FTH, INT2_OVR, INT2_SLEEP_CHG,
    INT2_SLEEP_STATE,
};

verus! {

/// Operating mode: the MODE field and the LP_MODE field of CTRL1 together, four bits.
#[derive(Debug, Copy, Clone, PartialEq, Eq, Structural)]
pub enum Mode {
    /// High-performance mode (14-bit resolution)
    HighPerformance,
    /// Continuous conversion, low-power mode 4 (14-bit resolution)
    ContinuousLowPower4,
    /// Continuous conversion, low-power mode 3 (14-bit resolution)
    ContinuousLowPower3,
    /// Continuous conversion, low-power mode 2 (14-bit resolution)
    ContinuousLowPower2,
    /// Continuous conversion, low-power mode 1 (12-bit resolution)
    ContinuousLowPower1,
    /// Single conversion on demand, low-power mode 4 (14-bit resolution)
    SingleConversionLowPower4,
    /// Single conversion on demand, low-power mode 3 (14-bit resolution)
    SingleConversionLowPower3,
    /// Single conversion on demand, low-power mode 2 (14-bit resolution)
    SingleConversionLowPower2,
    /// Single conversion on demand, low-power mode 1 (12-bit resolution)
    SingleConversionLowPower1,
}

impl Mode {
    /// The bit pattern of the setting, before it is shifted into its field.
    pub open spec fn bits_spec(self) -> u8 {
        match self {
            Mode::HighPerformance => 0b0100,
            Mode::ContinuousLowPower4 => 0b0011,
            Mode::ContinuousLowPower3 => 0b0010,
            Mode::ContinuousLowPower2 => 0b0001,
            Mode::ContinuousLowPower1 => 0b0000,
            Mode::SingleConversionLowPower4 => 0b1011,
            Mode::SingleConversionLowPower3 => 0b1010,
            Mode::SingleConversionLowPower2 => 0b1001,
            Mode::SingleConversionLowPower1 => 0b1000,
        }
    }

    /// The bit pattern of the setting, before it is shifted into its field.
    pub fn bits(self) -> (b: u8)
        ensures
            b == self.bits_spec(),
    {
        match self {
            Mode::HighPerformance => 0b0100,
            Mode::ContinuousLowPower4 => 0b0011,
            Mode::ContinuousLowPower3 => 0b0010,
            Mode::ContinuousLowPower2 => 0b0001,
            Mode::ContinuousLowPower1 => 0b0000,
            Mode::SingleConversionLowPower4 => 0b1011,
            Mode::SingleConversionLowPower3 => 0b1010,
            Mode::SingleConversionLowPower2 => 0b1001,
            Mode::SingleConversionLowPower1 => 0b1000,
        }
    }

    /// The setting that a bit pattern stands for, if it stands for one.
    pub open spec fn from_bits_spec(bits: u8) -> Option<Self> {
        if exists|s: Self| s.bits_spec() == bits {
            Some(choose|s: Self| s.bits_spec() == bits)
        } else {
            None
        }
    }

    /// The setting that a bit pattern stands for, if it stands for one.
    pub fn from_bits(bits: u8) -> (r: Option<Self>)
        ensures
            r == Self::from_bits_spec(bits),
    {
        let r = match bits {
                0b0100 => Some(Mode::HighPerformance),
                0b0011 => Some(Mode::ContinuousLowPower4),
                0b0010 => Some(Mode::ContinuousLowPower3),
                0b0001 => Some(Mode::ContinuousLowPower2),
                0b0000 => Some(Mode::ContinuousLowPower1),
                0b1011 => Some(Mode::SingleConversionLowPower4),
                0b1010 => Some(Mode::SingleConversionLowPower3),
                0b1001 => Some(Mode::SingleConversionLowPower2),
                0b1000 => Some(Mode::SingleConversionLowPower1),
                _ => None,
        };
        proof {
            match r {
                Some(s) => {
                    assert(s.bits_spec() == bits);
                    Self::lemma_bits_injective(choose|c: Self| c.bits_spec() == bits, s);
                },
                None => {
                    assert(forall|s: Self| #[trigger] s.bits_spec() != bits);
                },
            }
        }
        r
    }

    /// Two settings with the same bit pattern are the same setting.
    pub proof fn lemma_bits_injective(a: Self, b: Self)
        requires
            a.bits_spec() == b.bits_spec(),
        ensures
            a == b,
    {
    }

    /// Reading back the bit pattern of a setting gives that setting.
    pub proof fn lemma_from_bits_round_trip(setting: Self)
        ensures
            Self::from_bits_spec(setting.bits_spec()) == Some(setting),
    {
        Self::lemma_bits_injective(
            choose|s: Self| s.bits_spec() == setting.bits_spec(),
            setting,
        );
    }
}

impl Default for Mode {
    /// The value after power-on reset.
    fn default() -> (r: Self)
        ensures
            r == Mode::ContinuousLowPower1,
    {
        Mode::ContinuousLowPower1
    }
}

/// Output data rate, shown as high-performance rate / low-power rate.
#[allow(non_camel_case_types)]
#[derive(Debug, Copy, Clone, PartialEq, Eq, Structural)]
pub enum OutputDataRate {
    /// Power-down
    PowerDown,
    /// 12.5 Hz / 1.6 Hz
    Hz1_6,
    /// 12.5 Hz / 12.5 Hz
    Hz12_5,
    /// 25 Hz / 25 Hz
    Hz25,
    /// 50 Hz / 50 Hz
    Hz50,
    /// 100 Hz / 100 Hz
    Hz100,
    /// 200 Hz / 200 Hz
    Hz200,
    /// 400 Hz / 200 Hz
    Hz400,
    /// 800 Hz / 200 Hz
    Hz800,
    /// 1600 Hz / 200 Hz
    Hz1600,
}

impl OutputDataRate {
    /// The bit pattern of the setting, before it is shifted into its field.
    pub open spec fn bits_spec(self) -> u8 {
        match self {
            OutputDataRate::PowerDown => 0b0000,
            OutputDataRate::Hz1_6 => 0b0001,
            OutputDataRate::Hz12_5 => 0b0010,
            OutputDataRate::Hz25 => 0b0011,
            OutputDataRate::Hz50 => 0b0100,
            OutputDataRate::Hz100 => 0b0101,
            OutputDataRate::Hz200 => 0b0110,
            OutputDataRate::Hz400 => 0b0111,
            OutputDataRate::Hz800 => 0b1000,
            OutputDataRate::Hz1600 => 0b1001,
        }
    }

    /// The bit pattern of the setting, before it is shifted into its field.
    pub fn bits(self) -> (b: u8)
        ensures
            b == self.bits_spec(),
    {
        match self {
            OutputDataRate::PowerDown => 0b0000,
            OutputDataRate::Hz1_6 => 0b0001,
            OutputDataRate::Hz12_5 => 0b0010,
            OutputDataRate::Hz25 => 0b0011,
            OutputDataRate::Hz50 => 0b0100,
            OutputDataRate::Hz100 => 0b0101,
            OutputDataRate::Hz200 => 0b0110,
            OutputDataRate::Hz400 => 0b0111,
            OutputDataRate::Hz800 => 0b1000,
            OutputDataRate::Hz1600 => 0b1001,
        }
    }

    /// The setting that a bit pattern stands for, if it stands for one.
    pub open spec fn from_bits_spec(bits: u8) -> Option<Self> {
        if exists|s: Self| s.bits_spec() == bits {
            Some(choose|s: Self| s.bits_spec() == bits)
        } else {
            None
        }
    }

    /// The setting that a bit pattern stands for, if it stands for one.
    pub fn from_bits(bits: u8) -> (r: Option<Self>)
        ensures
            r == Self::from_bits_spec(bits),
    {
        let r = match bits {
                0b0000 => Some(OutputDataRate::PowerDown),
                0b0001 => Some(OutputDataRate::Hz1_6),
                0b0010 => Some(OutputDataRate::Hz12_5),
                0b0011 => Some(OutputDataRate::Hz25),
                0b0100 => Some(OutputDataRate::Hz50),
                0b0101 => Some(OutputDataRate::Hz100),
                0b0110 => Some(OutputDataRate::Hz200),
                0b0111 => Some(OutputDataRate::Hz400),
                0b1000 => Some(OutputDataRate::Hz800),
                0b1001 => Some(OutputDataRate::Hz1600),
                _ => None,
        };
        proof {
            match r {
                Some(s) => {
                    assert(s.bits_spec() == bits);
                    Self::lemma_bits_injective(choose|c: Self| c.bits_spec() == bits, s);
                },
                None => {
                    assert(forall|s: Self| #[trigger] s.bits_spec() != bits);
                },
            }
        }
        r
    }

    /// Two settings with the same bit pattern are the same setting.
    pub proof fn lemma_bits_injective(a: Self, b: Self)
        requires
            a.bits_spec() == b.bits_spec(),
        ensures
            a == b,
    {
    }

    /// Reading back the bit pattern of a setting gives that setting.
    pub proof fn lemma_from_bits_round_trip(setting: Self)
        ensures
            Self::from_bits_spec(setting.bits_spec()) == Some(setting),
    {
        Self::lemma_bits_injective(
            choose|s: Self| s.bits_spec() == setting.bits_spec(),
            setting,
        );
    }
}

impl Default for OutputDataRate {
    /// The value after power-on reset.
    fn default() -> (r: Self)
        ensures
            r == OutputDataRate::Hz12_5,
    {
        OutputDataRate::Hz12_5
    }
}

/// Cutoff of the digital filter, as a fraction of the output data rate.
#[derive(Debug, Copy, Clone, PartialEq, Eq, Structural)]
pub enum BandwidthSelection {
    /// ODR/2 (up to ODR = 800 Hz, 400 Hz when ODR = 1600 Hz)
    OdrDiv2,
    /// ODR/4
    OdrDiv4,
    /// ODR/10
    OdrDiv10,
    /// ODR/20
    OdrDiv20,
}

impl BandwidthSelection {
    /// The bit pattern of the setting, before it is shifted into its field.
    pub open spec fn bits_spec(self) -> u8 {
        match self {
            BandwidthSelection::OdrDiv2 => 0b00,
            BandwidthSelection::OdrDiv4 => 0b01,
            BandwidthSelection::OdrDiv10 => 0b10,
            BandwidthSelection::OdrDiv20 => 0b11,
        }
    }

    /// The bit pattern of the setting, before it is shifted into its field.
    pub fn bits(self) -> (b: u8)
        ensures
            b == self.bits_spec(),
    {
        match self {
            BandwidthSelection::OdrDiv2 => 0b00,
            BandwidthSelection::OdrDiv4 => 0b01,
            BandwidthSelection::OdrDiv10 => 0b10,
            BandwidthSelection::OdrDiv20 => 0b11,
        }
    }

    /// The setting that a bit pattern stands for, if it stands for one.
    pub open spec fn from_bits_spec(bits: u8) -> Option<Self> {
        if exists|s: Self| s.bits_spec() == bits {
            Some(choose|s: Self| s.bits_spec() == bits)
        } else {
            None
        }
    }

    /// The setting that a bit pattern stands for, if it stands for one.
    pub fn from_bits(bits: u8) -> (r: Option<Self>)
        ensures
            r == Self::from_bits_spec(bits),
    {
        let r = match bits {
                0b00 => Some(BandwidthSelection::OdrDiv2),
                0b01 => Some(BandwidthSelection::OdrDiv4),
                0b10 => Some(BandwidthSelection::OdrDiv10),
                0b11 => Some(BandwidthSelection::OdrDiv20),
                _ => None,
        };
        proof {
            match r {
                Some(s) => {
                    assert(s.bits_spec() == bits);
                    Self::lemma_bits_injective(choose|c: Self| c.bits_spec() == bits, s);
                },
                None => {
                    assert(forall|s: Self| #[trigger] s.bits_spec() != bits);
                },
            }
        }
        r
    }

    /// Two settings with the same bit pattern are the same setting.
    pub proof fn lemma_bits_injective(a: Self, b: Self)
        requires
            a.bits_spec() == b.bits_spec(),
        ensures
            a == b,
    {
    }

    /// Reading back the bit pattern of a setting gives that setting.
    pub proof fn lemma_from_bits_round_trip(setting: Self)
        ensures
            Self::from_bits_spec(setting.bits_spec()) == Some(setting),
    {
        Self::lemma_bits_injective(
            choose|s: Self| s.bits_spec() == setting.bits_spec(),
            setting,
        );
    }
}

impl Default for BandwidthSelection {
    /// The value after power-on reset.
    fn default() -> (r: Self)
        ensures
            r == BandwidthSelection::OdrDiv2,
    {
        BandwidthSelection::OdrDiv2
    }
}

/// Full-scale range of the accelerometer.
#[derive(Debug, Copy, Clone, PartialEq, Eq, Structural)]
pub enum FullScale {
    /// ±2 g
    G2,
    /// ±4 g
    G4,
    /// ±8 g
    G8,
    /// ±16 g
    G16,
}

impl FullScale {
    /// The bit pattern of the setting, before it is shifted into its field.
    pub open spec fn bits_spec(self) -> u8 {
        match self {
            FullScale::G2 => 0b00,
            FullScale::G4 => 0b01,
            FullScale::G8 => 0b10,
            FullScale::G16 => 0b11,
        }
    }

    /// The bit pattern of the setting, before it is shifted into its field.
    pub fn bits(self) -> (b: u8)
        ensures
            b == self.bits_spec(),
    {
        match self {
            FullScale::G2 => 0b00,
            FullScale::G4 => 0b01,
            FullScale::G8 => 0b10,
            FullScale::G16 => 0b11,
        }
    }

    /// The setting that a bit pattern stands for, if it stands for one.
    pub open spec fn from_bits_spec(bits: u8) -> Option<Self> {
        if exists|s: Self| s.bits_spec() == bits {
            Some(choose|s: Self| s.bits_spec() == bits)
        } else {
            None
        }
    }

    /// The setting that a bit pattern stands for, if it stands for one.
    pub fn from_bits(bits: u8) -> (r: Option<Self>)
        ensures
            r == Self::from_bits_spec(bits),
    {
        let r = match bits {
                0b00 => Some(FullScale::G2),
                0b01 => Some(FullScale::G4),
                0b10 => Some(FullScale::G8),
                0b11 => Some(FullScale::G16),
                _ => None,
        };
        proof {
            match r {
                Some(s) => {
                    assert(s.bits_spec() == bits);
                    Self::lemma_bits_injective(choose|c: Self| c.bits_spec() == bits, s);
                },
                None => {
                    assert(forall|s: Self| #[trigger] s.bits_spec() != bits);
                },
            }
        }
        r
    }

    /// Two settings with the same bit pattern are the same setting.
    pub proof fn lemma_bits_injective(a: Self, b: Self)
        requires
            a.bits_spec() == b.bits_spec(),
        ensures
            a == b,
    {
    }

    /// Reading back the bit pattern of a setting gives that setting.
    pub proof fn lemma_from_bits_round_trip(setting: Self)
        ensures
            Self::from_bits_spec(setting.bits_spec()) == Some(setting),
    {
        Self::lemma_bits_injective(
            choose|s: Self| s.bits_spec() == setting.bits_spec(),
            setting,
        );
    }
}

impl Default for FullScale {
    /// The value after power-on reset.
    fn default() -> (r: Self)
        ensures
            r == FullScale::G2,
    {
        FullScale::G2
    }
}

/// FIFO mode.
#[derive(Debug, Copy, Clone, PartialEq, Eq, Structural)]
pub enum FifoMode {
    /// Bypass: the FIFO is off
    Bypass,
    /// FIFO mode: collecting stops when the FIFO is full
    StopOnFifoFull,
    /// Continuous until the trigger is deasserted, then FIFO mode
    ContinuousToFifo,
    /// Bypass until the trigger is deasserted, then continuous
    BypassToContinuous,
    /// Continuous: a new sample overwrites the oldest when the FIFO is full
    Continuous,
}

impl FifoMode {
    /// The bit pattern of the setting, before it is shifted into its field.
    pub open spec fn bits_spec(self) -> u8 {
        match self {
            FifoMode::Bypass => 0b000,
            FifoMode::StopOnFifoFull => 0b001,
            FifoMode::ContinuousToFifo => 0b011,
            FifoMode::BypassToContinuous => 0b100,
            FifoMode::Continuous => 0b110,
        }
    }

    /// The bit pattern of the setting, before it is shifted into its field.
    pub fn bits(self) -> (b: u8)
        ensures
            b == self.bits_spec(),
    {
        match self {
            FifoMode::Bypass => 0b000,
            FifoMode::StopOnFifoFull => 0b001,
            FifoMode::ContinuousToFifo => 0b011,
            FifoMode::BypassToContinuous => 0b100,
            FifoMode::Continuous => 0b110,
        }
    }

    /// The setting that a bit pattern stands for, if it stands for one.
    pub open spec fn from_bits_spec(bits: u8) -> Option<Self> {
        if exists|s: Self| s.bits_spec() == bits {
            Some(choose|s: Self| s.bits_spec() == bits)
        } else {
            None
        }
    }

    /// The setting that a bit pattern stands for, if it stands for one.
    pub fn from_bits(bits: u8) -> (r: Option<Self>)
        ensures
            r == Self::from_bits_spec(bits),
    {
        let r = match bits {
                0b000 => Some(FifoMode::Bypass),
                0b001 => Some(FifoMode::StopOnFifoFull),
                0b011 => Some(FifoMode::ContinuousToFifo),
                0b100 => Some(FifoMode::BypassToContinuous),
                0b110 => Some(FifoMode::Continuous),
                _ => None,
        };
        proof {
            match r {
                Some(s) => {
                    assert(s.bits_spec() == bits);
                    Self::lemma_bits_injective(choose|c: Self| c.bits_spec() == bits, s);
                },
                None => {
                    assert(forall|s: Self| #[trigger] s.bits_spec() != bits);
                },
            }
        }
        r
    }

    /// Two settings with the same bit pattern are the same setting.
    pub proof fn lemma_bits_injective(a: Self, b: Self)
        requires
            a.bits_spec() == b.bits_spec(),
        ensures
            a == b,
    {
    }

    /// Reading back the bit pattern of a setting gives that setting.
    pub proof fn lemma_from_bits_round_trip(setting: Self)
        ensures
            Self::from_bits_spec(setting.bits_spec()) == Some(setting),
    {
        Self::lemma_bits_injective(
            choose|s: Self| s.bits_spec() == setting.bits_spec(),
            setting,
        );
    }
}

impl Default for FifoMode {
    /// The value after power-on reset.
    fn default() -> (r: Self)
        ensures
            r == FifoMode::Bypass,
    {
        FifoMode::Bypass
    }
}

/// Threshold of the 4D/6D function at ±2 g full scale.
#[derive(Debug, Copy, Clone, PartialEq, Eq, Structural)]
pub enum Threshold6D {
    /// 6 (80°)
    Deg80,
    /// 11 (70°)
    Deg70,
    /// 16 (60°)
    Deg60,
    /// 21 (50°)
    Deg50,
}

impl Threshold6D {
    /// The bit pattern of the setting, before it is shifted into its field.
    pub open spec fn bits_spec(self) -> u8 {
        match self {
            Threshold6D::Deg80 => 0b00,
            Threshold6D::Deg70 => 0b01,
            Threshold6D::Deg60 => 0b10,
            Threshold6D::Deg50 => 0b11,
        }
    }

    /// The bit pattern of the setting, before it is shifted into its field.
    pub fn bits(self) -> (b: u8)
        ensures
            b == self.bits_spec(),
    {
        match self {
            Threshold6D::Deg80 => 0b00,
            Threshold6D::Deg70 => 0b01,
            Threshold6D::Deg60 => 0b10,
            Threshold6D::Deg50 => 0b11,
        }
    }

    /// The setting that a bit pattern stands for, if it stands for one.
    pub open spec fn from_bits_spec(bits: u8) -> Option<Self> {
        if exists|s: Self| s.bits_spec() == bits {
            Some(choose|s: Self| s.bits_spec() == bits)
        } else {
            None
        }
    }

    /// The setting that a bit pattern stands for, if it stands for one.
    pub fn from_bits(bits: u8) -> (r: Option<Self>)
        ensures
            r == Self::from_bits_spec(bits),
    {
        let r = match bits {
                0b00 => Some(Threshold6D::Deg80),
                0b01 => Some(Threshold6D::Deg70),
                0b10 => Some(Threshold6D::Deg60),
                0b11 => Some(Threshold6D::Deg50),
                _ => None,
        };
        proof {
            match r {
                Some(s) => {
                    assert(s.bits_spec() == bits);
                    Self::lemma_bits_injective(choose|c: Self| c.bits_spec() == bits, s);
                },
                None => {
                    assert(forall|s: Self| #[trigger] s.bits_spec() != bits);
                },
            }
        }
        r
    }

    /// Two settings with the same bit pattern are the same setting.
    pub proof fn lemma_bits_injective(a: Self, b: Self)
        requires
            a.bits_spec() == b.bits_spec(),
        ensures
            a == b,
    {
    }

    /// Reading back the bit pattern of a setting gives that setting.
    pub proof fn lemma_from_bits_round_trip(setting: Self)
        ensures
            Self::from_bits_spec(setting.bits_spec()) == Some(setting),
    {
        Self::lemma_bits_injective(
            choose|s: Self| s.bits_spec() == setting.bits_spec(),
            setting,
        );
    }
}

impl Default for Threshold6D {
    /// The value after power-on reset.
    fn default() -> (r: Self)
        ensures
            r == Threshold6D::Deg80,
    {
        Threshold6D::Deg80
    }
}

/// Priority of the axes in tap detection: highest, middle, lowest.
#[derive(Debug, Copy, Clone, PartialEq, Eq, Structural)]
pub enum TapPriority {
    /// X, Y, Z
    XYZ,
    /// Y, X, Z
    YXZ,
    /// X, Z, Y
    XZY,
    /// Z, Y, X
    ZYX,
    /// X, Y, Z again
    XYZAlt,
    /// Y, Z, X
    YZX,
    /// Z, X, Y
    ZXY,
    /// Z, Y, X again
    ZYXAlt,
}

impl TapPriority {
    /// The bit pattern of the setting, before it is shifted into its field.
    pub open spec fn bits_spec(self) -> u8 {
        match self {
            TapPriority::XYZ => 0b000,
            TapPriority::YXZ => 0b001,
            TapPriority::XZY => 0b010,
            TapPriority::ZYX => 0b011,
            TapPriority::XYZAlt => 0b100,
            TapPriority::YZX => 0b101,
            TapPriority::ZXY => 0b110,
            TapPriority::ZYXAlt => 0b111,
        }
    }

    /// The bit pattern of the setting, before it is shifted into its field.
    pub fn bits(self) -> (b: u8)
        ensures
            b == self.bits_spec(),
    {
        match self {
            TapPriority::XYZ => 0b000,
            TapPriority::YXZ => 0b001,
            TapPriority::XZY => 0b010,
            TapPriority::ZYX => 0b011,
            TapPriority::XYZAlt => 0b100,
            TapPriority::YZX => 0b101,
            TapPriority::ZXY => 0b110,
            TapPriority::ZYXAlt => 0b111,
        }
    }

    /// The setting that a bit pattern stands for, if it stands for one.
    pub open spec fn from_bits_spec(bits: u8) -> Option<Self> {
        if exists|s: Self| s.bits_spec() == bits {
            Some(choose|s: Self| s.bits_spec() == bits)
        } else {
            None
        }
    }

    /// The setting that a bit pattern stands for, if it stands for one.
    pub fn from_bits(bits: u8) -> (r: Option<Self>)
        ensures
            r == Self::from_bits_spec(bits),
    {
        let r = match bits {
                0b000 => Some(TapPriority::XYZ),
                0b001 => Some(TapPriority::YXZ),
                0b010 => Some(TapPriority::XZY),
                0b011 => Some(TapPriority::ZYX),
                0b100 => Some(TapPriority::XYZAlt),
                0b101 => Some(TapPriority::YZX),
                0b110 => Some(TapPriority::ZXY),
                0b111 => Some(TapPriority::ZYXAlt),
                _ => None,
        };
        proof {
            match r {
                Some(s) => {
                    assert(s.bits_spec() == bits);
                    Self::lemma_bits_injective(choose|c: Self| c.bits_spec() == bits, s);
                },
                None => {
                    assert(forall|s: Self| #[trigger] s.bits_spec() != bits);
                },
            }
        }
        r
    }

    /// Two settings with the same bit pattern are the same setting.
    pub proof fn lemma_bits_injective(a: Self, b: Self)
        requires
            a.bits_spec() == b.bits_spec(),
        ensures
            a == b,
    {
    }

    /// Reading back the bit pattern of a setting gives that setting.
    pub proof fn lemma_from_bits_round_trip(setting: Self)
        ensures
            Self::from_bits_spec(setting.bits_spec()) == Some(setting),
    {
        Self::lemma_bits_injective(
            choose|s: Self| s.bits_spec() == setting.bits_spec(),
            setting,
        );
    }
}

impl Default for TapPriority {
    /// The value after power-on reset.
    fn default() -> (r: Self)
        ensures
            r == TapPriority::XYZ,
    {
        TapPriority::XYZ
    }
}

/// Free-fall threshold at ±2 g full scale, in counts.
#[derive(Debug, Copy, Clone, PartialEq, Eq, Structural)]
pub enum FreeFallThreshold {
    /// 5
    Ths5,
    /// 7
    Ths7,
    /// 8
    Ths8,
    /// 10
    Ths10,
    /// 11
    Ths11,
    /// 13
    Ths13,
    /// 15
    Ths15,
    /// 16
    Ths16,
}

impl FreeFallThreshold {
    /// The bit pattern of the setting, before it is shifted into its field.
    pub open spec fn bits_spec(self) -> u8 {
        match self {
            FreeFallThreshold::Ths5 => 0b000,
            FreeFallThreshold::Ths7 => 0b001,
            FreeFallThreshold::Ths8 => 0b010,
            FreeFallThreshold::Ths10 => 0b011,
            FreeFallThreshold::Ths11 => 0b100,
            FreeFallThreshold::Ths13 => 0b101,
            FreeFallThreshold::Ths15 => 0b110,
            FreeFallThreshold::Ths16 => 0b111,
        }
    }

    /// The bit pattern of the setting, before it is shifted into its field.
    pub fn bits(self) -> (b: u8)
        ensures
            b == self.bits_spec(),
    {
        match self {
            FreeFallThreshold::Ths5 => 0b000,
            FreeFallThreshold::Ths7 => 0b001,
            FreeFallThreshold::Ths8 => 0b010,
            FreeFallThreshold::Ths10 => 0b011,
            FreeFallThreshold::Ths11 => 0b100,
            FreeFallThreshold::Ths13 => 0b101,
            FreeFallThreshold::Ths15 => 0b110,
            FreeFallThreshold::Ths16 => 0b111,
        }
    }

    /// The setting that a bit pattern stands for, if it stands for one.
    pub open spec fn from_bits_spec(bits: u8) -> Option<Self> {
        if exists|s: Self| s.bits_spec() == bits {
            Some(choose|s: Self| s.bits_spec() == bits)
        } else {
            None
        }
    }

    /// The setting that a bit pattern stands for, if it stands for one.
    pub fn from_bits(bits: u8) -> (r: Option<Self>)
        ensures
            r == Self::from_bits_spec(bits),
    {
        let r = match bits {
                0b000 => Some(FreeFallThreshold::Ths5),
                0b001 => Some(FreeFallThreshold::Ths7),
                0b010 => Some(FreeFallThreshold::Ths8),
                0b011 => Some(FreeFallThreshold::Ths10),
                0b100 => Some(FreeFallThreshold::Ths11),
                0b101 => Some(FreeFallThreshold::Ths13),
                0b110 => Some(FreeFallThreshold::Ths15),
                0b111 => Some(FreeFallThreshold::Ths16),
                _ => None,
        };
        proof {
            match r {
                Some(s) => {
                    assert(s.bits_spec() == bits);
                    Self::lemma_bits_injective(choose|c: Self| c.bits_spec() == bits, s);
                },
                None => {
                    assert(forall|s: Self| #[trigger] s.bits_spec() != bits);
                },
            }
        }
        r
    }

    /// Two settings with the same bit pattern are the same setting.
    pub proof fn lemma_bits_injective(a: Self, b: Self)
        requires
            a.bits_spec() == b.bits_spec(),
        ensures
            a == b,
    {
    }

    /// Reading back the bit pattern of a setting gives that setting.
    pub proof fn lemma_from_bits_round_trip(setting: Self)
        ensures
            Self::from_bits_spec(setting.bits_spec()) == Some(setting),
    {
        Self::lemma_bits_injective(
            choose|s: Self| s.bits_spec() == setting.bits_spec(),
            setting,
        );
    }
}

impl Default for FreeFallThreshold {
    /// The value after power-on reset.
    fn default() -> (r: Self)
        ensures
            r == FreeFallThreshold::Ths5,
    {
        FreeFallThreshold::Ths5
    }
}

impl Mode {
    /// How many low bits of a left-justified 16-bit sample carry no data: 4 in
    /// the two 12-bit modes, 2 in every other mode (14 bits).
    pub open spec fn alignment_shift_spec(self) -> u8 {
        match self {
            Mode::ContinuousLowPower1 | Mode::SingleConversionLowPower1 => 4,
            _ => 2,
        }
    }

    /// How many low bits of a left-justified 16-bit sample carry no data.
    pub fn alignment_shift(self) -> (s: u8)
        ensures
            s == self.alignment_shift_spec(),
    {
        match self {
            Mode::ContinuousLowPower1 | Mode::SingleConversionLowPower1 => 4,
            _ => 2,
        }
    }
}

/// Two to the power of `shift`, for the two shifts that occur.
pub open spec fn alignment_divisor(shift: u8) -> int {
    if shift == 4 {
        16
    } else {
        4
    }
}

/// A left-justified sample shifted right (arithmetically) by the number of
/// bits that `mode` leaves empty: the floor of `raw / 2^shift`.
pub open spec fn aligned_counts(raw: i16, mode: Mode) -> int {
    raw as int / alignment_divisor(mode.alignment_shift_spec())
}

/// `value`, or `max` where `value` is greater.
pub open spec fn clamped(value: u8, max: u8) -> u8 {
    if value > max {
        max
    } else {
        value
    }
}

/// Limits `value` to `max`.
pub fn clamp_to(value: u8, max: u8) -> (r: u8)
    ensures
        r == clamped(value, max),
        r <= max,
{
    if value > max {
        max
    } else {
        value
    }
}

/// Clamping never fails: a value within the range is kept, and every value
/// above it gives what the highest value of the range gives.
pub proof fn lemma_clamped_saturates(value: u8, max: u8)
    ensures
        clamped(value, max) <= max,
        value <= max ==> clamped(value, max) == value,
        value >= max ==> clamped(value, max) == clamped(max, max),
{
}

/// Dividing a sample by 16 or 4 and rounding down is shifting it right by 4
/// or 2 bits with the sign kept.
pub proof fn lemma_aligned_counts_is_shift(raw: i16, mode: Mode)
    ensures
        aligned_counts(raw, mode) == (if mode.alignment_shift_spec() == 4 {
            raw >> 4u8
        } else {
            raw >> 2u8
        }),
{
    assert(raw >> 4u8 == raw as int / 16) by (bit_vector);
    assert(raw >> 2u8 == raw as int / 4) by (bit_vector);
}

impl FullScale {
    /// Micro-g per count at this full scale: 0.244, 0.488, 0.976 and 1.952
    /// milli-g.
    pub open spec fn ug_per_count_spec(self) -> int {
        match self {
            FullScale::G2 => 244,
            FullScale::G4 => 488,
            FullScale::G8 => 976,
            FullScale::G16 => 1952,
        }
    }

    /// Micro-g per count at this full scale.
    pub fn ug_per_count(self) -> (f: i32)
        ensures
            f == self.ug_per_count_spec(),
    {
        match self {
            FullScale::G2 => 244,
            FullScale::G4 => 488,
            FullScale::G8 => 976,
            FullScale::G16 => 1952,
        }
    }

    /// The acceleration, in micro-g, that a left-justified raw sample stands
    /// for.
    pub open spec fn raw_to_ug(self, raw: i16, mode: Mode) -> int {
        aligned_counts(raw, mode) * self.ug_per_count_spec()
    }

    /// Converts a left-justified raw sample to micro-g: the sample is shifted
    /// right by 4 bits in the 12-bit modes and by 2 bits in all others, then
    /// multiplied by the micro-g per count of the full scale.
    pub fn convert_raw_i16_to_ug(self, raw: i16, set_mode: Mode) -> (ug: i32)
        ensures
            ug == self.raw_to_ug(raw, set_mode),
            -15_990_784 <= ug <= 15_988_832,
    {
        let factor: i32 = self.ug_per_count();
        let aligned: i16 = match set_mode.alignment_shift() {
            4 => {
                assert(raw >> 4u8 == raw as int / 16 && -2048 <= raw >> 4u8 <= 2047) by (bit_vector);
                raw >> 4
            },
            _ => {
                assert(raw >> 2u8 == raw as int / 4 && -8192 <= raw >> 2u8 <= 8191) by (bit_vector);
                raw >> 2
            },
        };
        assert(-8192 * 1952 <= aligned * factor <= 8191 * 1952) by (nonlinear_arith)
            requires
                -8192 <= aligned <= 8191,
                244 <= factor <= 1952,
        ;
        (aligned as i32) * factor
    }
}

/// `mask` if `on`, else no bit.
pub open spec fn flag_bits(on: bool, mask: u8) -> u8 {
    if on {
        mask
    } else {
        0
    }
}

/// `mask` if `on`, else no bit.
pub fn flag(on: bool, mask: u8) -> (r: u8)
    ensures
        r == flag_bits(on, mask),
{
    if on {
        mask
    } else {
        0
    }
}

/// Eight flags, each in a bit of its own, can be told apart in their sum.
proof fn lemma_flags_disjoint(a: u8, b: u8, c: u8, d: u8, e: u8, f: u8, g: u8, h: u8)
    by (bit_vector)
    requires
        a == 0 || a == 0x80,
        b == 0 || b == 0x40,
        c == 0 || c == 0x20,
        d == 0 || d == 0x10,
        e == 0 || e == 0x08,
        f == 0 || f == 0x04,
        g == 0 || g == 0x02,
        h == 0 || h == 0x01,
    ensures
        ((a | b | c | d | e | f | g | h) & 0x80 != 0) == (a != 0),
        ((a | b | c | d | e | f | g | h) & 0x40 != 0) == (b != 0),
        ((a | b | c | d | e | f | g | h) & 0x20 != 0) == (c != 0),
        ((a | b | c | d | e | f | g | h) & 0x10 != 0) == (d != 0),
        ((a | b | c | d | e | f | g | h) & 0x08 != 0) == (e != 0),
        ((a | b | c | d | e | f | g | h) & 0x04 != 0) == (f != 0),
        ((a | b | c | d | e | f | g | h) & 0x02 != 0) == (g != 0),
        ((a | b | c | d | e | f | g | h) & 0x01 != 0) == (h != 0),
{
}

/// Which interrupt signals are routed to the INT1 pad.
#[derive(Debug, Copy, Clone, PartialEq, Eq, Structural)]
pub struct Int1PadConfig {
    /// 6D recognition
    pub int1_6d: bool,
    /// Single-tap recognition
    pub int1_single_tap: bool,
    /// Wake-up recognition
    pub int1_wu: bool,
    /// Free-fall recognition
    pub int1_ff: bool,
    /// Double-tap recognition
    pub int1_tap: bool,
    /// FIFO full
    pub int1_diff5: bool,
    /// FIFO threshold
    pub int1_fth: bool,
    /// Data ready
    pub int1_drdy: bool,
}

impl Int1PadConfig {
    /// The configuration that routes no signal.
    pub open spec fn none() -> Self {
        Int1PadConfig {
            int1_6d: false,
            int1_single_tap: false,
            int1_wu: false,
            int1_ff: false,
            int1_tap: false,
            int1_diff5: false,
            int1_fth: false,
            int1_drdy: false,
        }
    }

    /// The configuration that a register byte stands for: one flag per bit.
    pub open spec fn decode(value: u8) -> Self {
        Int1PadConfig {
            int1_6d: value & INT1_6D != 0,
            int1_single_tap: value & INT1_SINGLE_TAP != 0,
            int1_wu: value & INT1_WU != 0,
            int1_ff: value & INT1_FF != 0,
            int1_tap: value & INT1_TAP != 0,
            int1_diff5: value & INT1_DIFF5 != 0,
            int1_fth: value & INT1_FTH != 0,
            int1_drdy: value & INT1_DRDY != 0,
        }
    }

    /// The register byte that stands for the configuration.
    pub open spec fn encode(self) -> u8 {
        flag_bits(self.int1_6d, INT1_6D)
            | flag_bits(self.int1_single_tap, INT1_SINGLE_TAP)
            | flag_bits(self.int1_wu, INT1_WU)
            | flag_bits(self.int1_ff, INT1_FF)
            | flag_bits(self.int1_tap, INT1_TAP)
            | flag_bits(self.int1_diff5, INT1_DIFF5)
            | flag_bits(self.int1_fth, INT1_FTH)
            | flag_bits(self.int1_drdy, INT1_DRDY)
    }

    /// Encoding a configuration and decoding the byte gives the configuration
    /// back, whatever flags are set.
    pub proof fn lemma_decode_encode(config: Self)
        ensures
            Self::decode(config.encode()) == config,
    {
        lemma_flags_disjoint(
            flag_bits(config.int1_6d, INT1_6D),
            flag_bits(config.int1_single_tap, INT1_SINGLE_TAP),
            flag_bits(config.int1_wu, INT1_WU),
            flag_bits(config.int1_ff, INT1_FF),
            flag_bits(config.int1_tap, INT1_TAP),
            flag_bits(config.int1_diff5, INT1_DIFF5),
            flag_bits(config.int1_fth, INT1_FTH),
            flag_bits(config.int1_drdy, INT1_DRDY),
        );
    }

    /// Decoding a byte and encoding the configuration gives the byte back.
    pub proof fn lemma_encode_decode(value: u8)
        ensures
            Self::decode(value).encode() == value,
    {
        assert((if value & 0x80 != 0 { 0x80u8 } else { 0u8 })
            | (if value & 0x40 != 0 { 0x40u8 } else { 0u8 })
            | (if value & 0x20 != 0 { 0x20u8 } else { 0u8 })
            | (if value & 0x10 != 0 { 0x10u8 } else { 0u8 })
            | (if value & 0x08 != 0 { 0x08u8 } else { 0u8 })
            | (if value & 0x04 != 0 { 0x04u8 } else { 0u8 })
            | (if value & 0x02 != 0 { 0x02u8 } else { 0u8 })
            | (if value & 0x01 != 0 { 0x01u8 } else { 0u8 }) == value) by (bit_vector);
    }
}

impl Default for Int1PadConfig {
    /// No signal routed.
    fn default() -> (r: Self)
        ensures
            r == Self::none(),
    {
        Int1PadConfig {
            int1_6d: false,
            int1_single_tap: false,
            int1_wu: false,
            int1_ff: false,
            int1_tap: false,
            int1_diff5: false,
            int1_fth: false,
            int1_drdy: false,
        }
    }
}

impl From<u8> for Int1PadConfig {
    /// The configuration that a register byte stands for: `decode`.
    fn from(value: u8) -> (r: Self) {
        Int1PadConfig {
            int1_6d: value & INT1_6D != 0,
            int1_single_tap: value & INT1_SINGLE_TAP != 0,
            int1_wu: value & INT1_WU != 0,
            int1_ff: value & INT1_FF != 0,
            int1_tap: value & INT1_TAP != 0,
            int1_diff5: value & INT1_DIFF5 != 0,
            int1_fth: value & INT1_FTH != 0,
            int1_drdy: value & INT1_DRDY != 0,
        }
    }
}

impl FromSpecImpl<u8> for Int1PadConfig {
    open spec fn obeys_from_spec() -> bool {
        true
    }

    open spec fn from_spec(value: u8) -> Self {
        Self::decode(value)
    }
}

impl From<Int1PadConfig> for u8 {
    /// The register byte that stands for the configuration: `encode`.
    fn from(value: Int1PadConfig) -> (r: u8) {
        flag(value.int1_6d, INT1_6D)
            | flag(value.int1_single_tap, INT1_SINGLE_TAP)
            | flag(value.int1_wu, INT1_WU)
            | flag(value.int1_ff, INT1_FF)
            | flag(value.int1_tap, INT1_TAP)
            | flag(value.int1_diff5, INT1_DIFF5)
            | flag(value.int1_fth, INT1_FTH)
            | flag(value.int1_drdy, INT1_DRDY)
    }
}

impl FromSpecImpl<Int1PadConfig> for u8 {
    open spec fn obeys_from_spec() -> bool {
        true
    }

    open spec fn from_spec(value: Int1PadConfig) -> u8 {
        value.encode()
    }
}

/// Which interrupt signals are routed to the INT2 pad.
#[derive(Debug, Copy, Clone, PartialEq, Eq, Structural)]
pub struct Int2PadConfig {
    /// Sleep state
    pub int2_sleep_state: bool,
    /// Sleep change
    pub int2_sleep_chg: bool,
    /// Boot status
    pub int2_boot: bool,
    /// Temperature data ready
    pub int2_drdy_t: bool,
    /// FIFO overrun
    pub int2_ovr: bool,
    /// FIFO full
    pub int2_diff5: bool,
    /// FIFO threshold
    pub int2_fth: bool,
    /// Data ready
    pub int2_drdy: bool,
}

impl Int2PadConfig {
    /// The configuration that routes no signal.
    pub open spec fn none() -> Self {
        Int2PadConfig {
            int2_sleep_state: false,
            int2_sleep_chg: false,
            int2_boot: false,
            int2_drdy_t: false,
            int2_ovr: false,
            int2_diff5: false,
            int2_fth: false,
            int2_drdy: false,
        }
    }

    /// The configuration that a register byte stands for: one flag per bit.
    pub open spec fn decode(value: u8) -> Self {
        Int2PadConfig {
            int2_sleep_state: value & INT2_SLEEP_STATE != 0,
            int2_sleep_chg: value & INT2_SLEEP_CHG != 0,
            int2_boot: value & INT2_BOOT != 0,
            int2_drdy_t: value & INT2_DRDY_T != 0,
            int2_ovr: value & INT2_OVR != 0,
            int2_diff5: value & INT2_DIFF5 != 0,
            int2_fth: value & INT2_FTH != 0,
            int2_drdy: value & INT2_DRDY != 0,
        }
    }

    /// The register byte that stands for the configuration.
    pub open spec fn encode(self) -> u8 {
        flag_bits(self.int2_sleep_state, INT2_SLEEP_STATE)
            | flag_bits(self.int2_sleep_chg, INT2_SLEEP_CHG)
            | flag_bits(self.int2_boot, INT2_BOOT)
            | flag_bits(self.int2_drdy_t, INT2_DRDY_T)
            | flag_bits(self.int2_ovr, INT2_OVR)
            | flag_bits(self.int2_diff5, INT2_DIFF5)
            | flag_bits(self.int2_fth, INT2_FTH)
            | flag_bits(self.int2_drdy, INT2_DRDY)
    }

    /// Encoding a configuration and decoding the byte gives the configuration
    /// back, whatever flags are set.
    pub proof fn lemma_decode_encode(config: Self)
        ensures
            Self::decode(config.encode()) == config,
    {
        lemma_flags_disjoint(
            flag_bits(config.int2_sleep_state, INT2_SLEEP_STATE),
            flag_bits(config.int2_sleep_chg, INT2_SLEEP_CHG),
            flag_bits(config.int2_boot, INT2_BOOT),
            flag_bits(config.int2_drdy_t, INT2_DRDY_T),
            flag_bits(config.int2_ovr, INT2_OVR),
            flag_bits(config.int2_diff5, INT2_DIFF5),
            flag_bits(config.int2_fth, INT2_FTH),
            flag_bits(config.int2_drdy, INT2_DRDY),
        );
    }

    /// Decoding a byte and encoding the configuration gives the byte back.
    pub proof fn lemma_encode_decode(value: u8)
        ensures
            Self::decode(value).encode() == value,
    {
        assert((if value & 0x80 != 0 { 0x80u8 } else { 0u8 })
            | (if value & 0x40 != 0 { 0x40u8 } else { 0u8 })
            | (if value & 0x20 != 0 { 0x20u8 } else { 0u8 })
            | (if value & 0x10 != 0 { 0x10u8 } else { 0u8 })
            | (if value & 0x08 != 0 { 0x08u8 } else { 0u8 })
            | (if value & 0x04 != 0 { 0x04u8 } else { 0u8 })
            | (if value & 0x02 != 0 { 0x02u8 } else { 0u8 })
            | (if value & 0x01 != 0 { 0x01u8 } else { 0u8 }) == value) by (bit_vector);
    }
}

impl Default for Int2PadConfig {
    /// No signal routed.
    fn default() -> (r: Self)
        ensures
            r == Self::none(),
    {
        Int2PadConfig {
            int2_sleep_state: false,
            int2_sleep_chg: false,
            int2_boot: false,
            int2_drdy_t: false,
            int2_ovr: false,
            int2_diff5: false,
            int2_fth: false,
            int2_drdy: false,
        }
    }
}

impl From<u8> for Int2PadConfig {
    /// The configuration that a register byte stands for: `decode`.
    fn from(value: u8) -> (r: Self) {
        Int2PadConfig {
            int2_sleep_state: value & INT2_SLEEP_STATE != 0,
            int2_sleep_chg: value & INT2_SLEEP_CHG != 0,
            int2_boot: value & INT2_BOOT != 0,
            int2_drdy_t: value & INT2_DRDY_T != 0,
            int2_ovr: value & INT2_OVR != 0,
            int2_diff5: value & INT2_DIFF5 != 0,
            int2_fth: value & INT2_FTH != 0,
            int2_drdy: value & INT2_DRDY != 0,
        }
    }
}

impl FromSpecImpl<u8> for Int2PadConfig {
    open spec fn obeys_from_spec() -> bool {
        true
    }

    open spec fn from_spec(value: u8) -> Self {
        Self::decode(value)
    }
}

impl From<Int2PadConfig> for u8 {
    /// The register byte that stands for the configuration: `encode`.
    fn from(value: Int2PadConfig) -> (r: u8) {
        flag(value.int2_sleep_state, INT2_SLEEP_STATE)
            | flag(value.int2_sleep_chg, INT2_SLEEP_CHG)
            | flag(value.int2_boot, INT2_BOOT)
            | flag(value.int2_drdy_t, INT2_DRDY_T)
            | flag(value.int2_ovr, INT2_OVR)
            | flag(value.int2_diff5, INT2_DIFF5)
            | flag(value.int2_fth, INT2_FTH)
            | flag(value.int2_drdy, INT2_DRDY)
    }
}

impl FromSpecImpl<Int2PadConfig> for u8 {
    open spec fn obeys_from_spec() -> bool {
        true
    }

    open spec fn from_spec(value: Int2PadConfig) -> u8 {
        value.encode()
    }
}

} // verus!
