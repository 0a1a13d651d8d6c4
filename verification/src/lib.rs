//! Driver for the LIS2DTW12, a 3-axis accelerometer with a temperature sensor,
//! over a register-addressed bus.

pub mod driver;
pub mod i2c;
pub mod interface;
pub mod register_data;
pub mod register_settings;
pub mod registers;

pub use driver::Lis2dtw12;
pub use register_data::{
    AccelerationData, AllInterruptSources, AllSources, EventStatus, FifoSamplesStatus,
    RawAccelerationData, Sign, SixDSource, Status, TapSource, WakeUpSource,
};
pub use register_settings::{
    BandwidthSelection, FifoMode, FreeFallThreshold, FullScale, Int1PadConfig, Int2PadConfig,
    Mode, OutputDataRate, TapPriority, Threshold6D,
};
