//! The two bus addresses at which the device answers on I2C.
use vstd::prelude::*;

verus! {

/// The address of the device without the strap bit.
pub const I2C_SLAVE_ADDR: u8 = 0b001_1000;

/// Possible slave addresses.
#[derive(Debug, Clone, Copy, PartialEq, Eq, Structural)]
pub enum SlaveAddr {
    /// The base address
    Default,
    /// The base address with bit 0 as the strap pin gives it
    Alternative(bool),
}

impl SlaveAddr {
    /// The 7-bit bus address: the base address, plus one where the strap bit
    /// is set.
    pub open spec fn addr_spec(self) -> int {
        match self {
            SlaveAddr::Default => 0x18,
            SlaveAddr::Alternative(b) => if b {
                0x19
            } else {
                0x18
            },
        }
    }

    /// The 7-bit bus address.
    pub fn addr(self) -> (a: u8)
        ensures
            a == self.addr_spec(),
    {
        match self {
            SlaveAddr::Default => I2C_SLAVE_ADDR,
            SlaveAddr::Alternative(b) => {
                assert(0x18u8 | 1u8 == 0x19u8 && 0x18u8 | 0u8 == 0x18u8) by (bit_vector);
                I2C_SLAVE_ADDR | (if b {
                    1
                } else {
                    0
                })
            },
        }
    }
}

impl Default for SlaveAddr {
    fn default() -> (r: Self)
        ensures
            r == SlaveAddr::Default,
    {
        SlaveAddr::Default
    }
}

} // verus!
