//! Register map of the sensor: device addresses, register addresses, and
//! power-management command patterns. Pure data; each symbolic name is bound
//! to a fixed one-byte value by a spec function, with a matching executable
//! accessor.

use vstd::prelude::*;

verus! {

/// The two strap-selectable 7-bit bus addresses the sensor can respond on.
/// Exactly one is active per physical part; the caller picks it at
/// construction time.
#[derive(Clone, Copy, Debug, PartialEq, Eq)]
pub enum DeviceAddr {
    AD0,
    AD1,
}

impl DeviceAddr {
    /// The 7-bit address as a byte: `0x68` for AD0, `0x69` for AD1.
    pub open spec fn spec_byte(self) -> u8 {
        match self {
            DeviceAddr::AD0 => 0x68,
            DeviceAddr::AD1 => 0x69,
        }
    }

    /// Executable form of [`DeviceAddr::spec_byte`].
    pub fn byte(self) -> (r: u8)
        ensures
            r == self.spec_byte(),
    {
        match self {
            DeviceAddr::AD0 => 0x68,
            DeviceAddr::AD1 => 0x69,
        }
    }
}

/// The registers this driver touches: the three accelerometer axis pairs
/// (upper byte at the lower address, lower byte at the next address) and the
/// power-management register.
#[derive(Clone, Copy, Debug, PartialEq, Eq)]
pub enum Register {
    /// Upper byte of the accelerometer X-axis data.
    AccelDataX1,
    /// Lower byte of the accelerometer X-axis data.
    AccelDataX0,
    /// Upper byte of the accelerometer Y-axis data.
    AccelDataY1,
    /// Lower byte of the accelerometer Y-axis data.
    AccelDataY0,
    /// Upper byte of the accelerometer Z-axis data.
    AccelDataZ1,
    /// Lower byte of the accelerometer Z-axis data.
    AccelDataZ0,
    /// Power-management register.
    PwrMgmt0,
}

impl Register {
    /// The one-byte address of the register in the sensor's register space.
    pub open spec fn spec_address(self) -> u8 {
        match self {
            Register::AccelDataX1 => 0x0B,
            Register::AccelDataX0 => 0x0C,
            Register::AccelDataY1 => 0x0D,
            Register::AccelDataY0 => 0x0E,
            Register::AccelDataZ1 => 0x0F,
            Register::AccelDataZ0 => 0x10,
            Register::PwrMgmt0 => 0x1F,
        }
    }

    /// Executable form of [`Register::spec_address`].
    pub fn address(&self) -> (r: u8)
        ensures
            r == self.spec_address(),
    {
        match *self {
            Register::AccelDataX1 => 0x0B,
            Register::AccelDataX0 => 0x0C,
            Register::AccelDataY1 => 0x0D,
            Register::AccelDataY0 => 0x0E,
            Register::AccelDataZ1 => 0x0F,
            Register::AccelDataZ0 => 0x10,
            Register::PwrMgmt0 => 0x1F,
        }
    }
}

/// Command patterns for the power-management register. Only the accelerometer
/// low-noise (continuous sampling) mode is exercised by the public API.
#[derive(Clone, Copy, Debug, PartialEq, Eq)]
pub enum PwrMgmt0Bits {
    /// Put the accelerometer in low-noise (continuous sampling) mode.
    AccelLowNoiseMode,
}

impl PwrMgmt0Bits {
    /// The one-byte command pattern written to the power-management register.
    pub open spec fn spec_bits(self) -> u8 {
        match self {
            PwrMgmt0Bits::AccelLowNoiseMode => 0x03,
        }
    }

    /// Executable form of [`PwrMgmt0Bits::spec_bits`].
    pub fn bits(self) -> (r: u8)
        ensures
            r == self.spec_bits(),
    {
        match self {
            PwrMgmt0Bits::AccelLowNoiseMode => 0x03,
        }
    }
}

} // verus!
