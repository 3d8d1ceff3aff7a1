//! Bus address, register map and bit positions of the sensor.

use vstd::prelude::*;

verus! {

/// Seven-bit bus address at which the sensor answers.
pub const ADDR: u8 = 0b100_0100;

/// Addresses of the sensor's registers.
pub struct Register;

impl Register {
    /// Holds the chip identifier when read; resets the sensor when written.
    pub const DEVICE_ID: u8 = 0x00;

    /// Operating mode, sensing range, resolution and pin mode.
    pub const CONFIG1: u8 = 0x01;

    /// Infrared compensation.
    pub const CONFIG2: u8 = 0x02;

    /// Interrupt configuration.
    pub const CONFIG3: u8 = 0x03;

    /// First of the four threshold bytes: low threshold, then high threshold.
    pub const THL: u8 = 0x04;

    /// Status flags.
    pub const STATUS: u8 = 0x08;

    /// First of the six colour bytes: green, red and blue, low byte first.
    pub const GREEN_L: u8 = 0x09;

    /// Low byte of the red channel.
    pub const RED_L: u8 = 0x0B;

    /// Low byte of the blue channel.
    pub const BLUE_L: u8 = 0x0D;
}

/// Single-bit fields of the configuration and status registers.
pub struct BitFlags;

impl BitFlags {
    /// Configuration 1: the interrupt pin starts conversions.
    pub const SYNC: u8 = 0b0010_0000;

    /// Configuration 1: 12-bit conversions.
    pub const RESOLUTION: u8 = 0b0001_0000;

    /// Configuration 1: 10000 lux full scale.
    pub const RANGE: u8 = 0b0000_1000;

    /// Configuration 2: higher infrared compensation range.
    pub const IR_OFFSET: u8 = 0b1000_0000;

    /// Configuration 3: interrupt when a conversion is done.
    pub const CONVEN: u8 = 0b0001_0000;

    /// Status: a brownout occurred.
    pub const BOUTF: u8 = 0b0000_0100;

    /// Status: a conversion was completed.
    pub const CONVENF: u8 = 0b0000_0010;

    /// Status: a threshold interrupt was triggered.
    pub const RGBTHF: u8 = 0b0000_0001;
}

} // verus!
