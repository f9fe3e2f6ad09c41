//! The part of the seesaw register map that the soil sensor uses.

use vstd::prelude::*;

verus! {

/// What the hardware-id register of a soil sensor holds.
pub const SENSOR_HW_ID_CODE: u8 = 0x55;

pub const STATUS_BASE: u8 = 0x00;

pub const TOUCH_BASE: u8 = 0x0F;

pub const STATUS_HW_ID: u8 = 0x01;

pub const STATUS_TEMP: u8 = 0x04;

pub const TOUCH_CHANNEL_OFFSET: u8 = 0x10;

/// Settle time of the hardware-id register, in microseconds.
pub const HW_ID_DELAY: u64 = 125;

/// Settle time of the temperature register, in microseconds.
pub const TEMP_DELAY: u64 = 125;

/// Settle time of the moisture channel, in microseconds: the capacitive
/// measurement needs longer.
pub const MOISTURE_DELAY: u64 = 5000;

/// A register that the driver reads.
#[derive(Clone, Copy, Debug, PartialEq, Eq, Structural)]
pub enum Register {
    /// (status base, hardware id): one byte.
    HardwareId,
    /// (status base, temperature): four bytes, big-endian signed fixed point.
    Temperature,
    /// (touch base, touch channel): two bytes, big-endian unsigned.
    Moisture,
}

impl Register {
    /// The module base and register offset written to select the register.
    pub open spec fn spec_pair(self) -> (u8, u8) {
        match self {
            Register::HardwareId => (STATUS_BASE, STATUS_HW_ID),
            Register::Temperature => (STATUS_BASE, STATUS_TEMP),
            Register::Moisture => (TOUCH_BASE, TOUCH_CHANNEL_OFFSET),
        }
    }

    /// How many bytes the device answers with.
    pub open spec fn spec_response_len(self) -> nat {
        match self {
            Register::HardwareId => 1,
            Register::Temperature => 4,
            Register::Moisture => 2,
        }
    }

    /// How long the device needs between the command and the answer.
    pub open spec fn spec_settle_micros(self) -> u64 {
        match self {
            Register::HardwareId => HW_ID_DELAY,
            Register::Temperature => TEMP_DELAY,
            Register::Moisture => MOISTURE_DELAY,
        }
    }

    pub fn pair(&self) -> (r: (u8, u8))
        ensures
            r == self.spec_pair(),
    {
        match self {
            Register::HardwareId => (STATUS_BASE, STATUS_HW_ID),
            Register::Temperature => (STATUS_BASE, STATUS_TEMP),
            Register::Moisture => (TOUCH_BASE, TOUCH_CHANNEL_OFFSET),
        }
    }

    pub fn response_len(&self) -> (r: usize)
        ensures
            r == self.spec_response_len(),
    {
        match self {
            Register::HardwareId => 1,
            Register::Temperature => 4,
            Register::Moisture => 2,
        }
    }

    pub fn settle_micros(&self) -> (r: u64)
        ensures
            r == self.spec_settle_micros(),
    {
        match self {
            Register::HardwareId => HW_ID_DELAY,
            Register::Temperature => TEMP_DELAY,
            Register::Moisture => MOISTURE_DELAY,
        }
    }
}

} // verus!
