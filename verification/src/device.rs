//! The device handle: what it remembers, and the transaction that each
//! operation calls for.

use vstd::prelude::*;
use crate::model::{with_bits, Setting, Shadows};
use crate::registers::{BitFlags, Register};
use crate::request::{Read, Write};
use crate::types::{
    Error, FaultCount, IRFilteringRange, InterruptPinMode, InterruptThresholdAssignment,
    OperatingMode, Range, Resolution,
};

verus! {

/// The byte of a configuration register that holds several fields.
#[derive(Debug, Clone, Copy)]
pub(crate) struct Config {
    bits: u8,
}

impl Config {
    /// The same byte with the bits of `mask` set.
    fn with_high(self, mask: u8) -> (config: Config)
        ensures
            config.bits == with_bits(self.bits, mask, true),
    {
        Config { bits: self.bits | mask }
    }

    /// The same byte with the bits of `mask` cleared.
    fn with_low(self, mask: u8) -> (config: Config)
        ensures
            config.bits == with_bits(self.bits, mask, false),
    {
        Config { bits: self.bits & !mask }
    }
}

/// ISL29125 device driver
///
/// The handle owns the bus transport and remembers the bytes that it last
/// wrote to the two configuration registers that hold several fields. It does
/// not drive the bus. An operation returns the transaction to carry out; the
/// caller performs it on `bus()` and, for a write, reports the outcome to
/// `complete`.
#[derive(Debug)]
pub struct Isl29125<I2C> {
    i2c: I2C,
    config1: Config,
    config3: Config,
}

impl<I2C> View for Isl29125<I2C> {
    type V = Shadows;

    closed spec fn view(&self) -> Shadows {
        Shadows { config1: self.config1.bits, config3: self.config3.bits }
    }
}

impl<I2C> Isl29125<I2C> {
    /// The bus transport that the handle owns.
    pub closed spec fn transport(&self) -> I2C {
        self.i2c
    }

    /// Create new instance of the device.
    ///
    /// Both shadows start at zero, the value of the registers after a reset
    /// of the sensor. No transaction is asked for.
    pub fn new(i2c: I2C) -> (sensor: Self)
        ensures
            sensor@ == Shadows::power_on(),
            sensor.transport() == i2c,
    {
        Isl29125 { i2c, config1: Config { bits: 0 }, config3: Config { bits: 0 } }
    }

    /// Destroy driver instance, return I2C bus.
    pub fn destroy(self) -> (i2c: I2C)
        ensures
            i2c == self.transport(),
    {
        self.i2c
    }

    /// The bus transport, lent out for the caller to carry out a
    /// transaction. The shadows stay as they are.
    pub fn bus(&mut self) -> (bus: &mut I2C)
        ensures
            *bus == old(self).transport(),
            final(self).transport() == *final(bus),
            final(self)@ == old(self)@,
    {
        &mut self.i2c
    }

    /// Take note of how `write` went on the bus.
    ///
    /// A bus error is handed on as `Error::I2C` and changes nothing. After a
    /// successful write to configuration register 1 or 3 the shadow of that
    /// register is the byte written.
    pub fn complete<E>(&mut self, write: Write, outcome: Result<(), E>) -> (result: Result<
        (),
        Error<E>,
    >)
        ensures
            final(self)@ == old(self)@.completed(write, outcome is Ok),
            outcome is Err ==> final(self)@ == old(self)@,
            final(self).transport() == old(self).transport(),
            outcome is Ok ==> result is Ok,
            outcome matches Err(error) ==> result == Err::<(), Error<E>>(Error::I2C(error)),
    {
        match outcome {
            Ok(()) => {
                match write {
                    Write::Register { register, value } => {
                        if register == Register::CONFIG1 {
                            self.config1 = Config { bits: value };
                        } else if register == Register::CONFIG3 {
                            self.config3 = Config { bits: value };
                        }
                    },
                    Write::Thresholds { .. } => {},
                }
                Ok(())
            },
            Err(error) => Err(Error::I2C(error)),
        }
    }

    /// Read all colors
    ///
    /// One read of the six colour bytes, from the low byte of green on.
    pub fn read(&self) -> (request: Read<6>)
        ensures
            request.register == Register::GREEN_L,
    {
        Read { register: Register::GREEN_L }
    }

    /// Read red color
    pub fn red(&self) -> (request: Read<2>)
        ensures
            request.register == Register::RED_L,
    {
        Read { register: Register::RED_L }
    }

    /// Read green color
    pub fn green(&self) -> (request: Read<2>)
        ensures
            request.register == Register::GREEN_L,
    {
        Read { register: Register::GREEN_L }
    }

    /// Read blue color
    pub fn blue(&self) -> (request: Read<2>)
        ensures
            request.register == Register::BLUE_L,
    {
        Read { register: Register::BLUE_L }
    }

    /// Set operating mode
    ///
    /// The write replaces bits 2:0 of configuration register 1 by the code of
    /// `mode` and keeps the other bits of its shadow.
    pub fn set_operating_mode(&self, mode: OperatingMode) -> (write: Write)
        ensures
            Some(write) == self@.request(Setting::OperatingMode(mode)),
            (write matches Write::Register { register, value } && register == Register::CONFIG1
                && value & 0b0000_0111 == mode.code() && value & 0b1111_1000 == self@.config1
                & 0b1111_1000),
    {
        let config1: u8 = self.config1.bits & 0b1111_1000;
        let mask: u8 = match mode {
            OperatingMode::PowerDown => 0,
            OperatingMode::GreenOnly => 1,
            OperatingMode::RedOnly => 2,
            OperatingMode::BlueOnly => 3,
            OperatingMode::StandBy => 4,
            OperatingMode::RedGreenBlue => 5,
            OperatingMode::RedGreen => 6,
            OperatingMode::GreenBlue => 7,
        };
        let bits: u8 = self.config1.bits;
        assert(((bits & 0b1111_1000) | mask) & 0b0000_0111 == mask && ((bits & 0b1111_1000) | mask)
            & 0b1111_1000 == bits & 0b1111_1000) by (bit_vector)
            requires
                mask <= 7,
        ;
        Write::Register { register: Register::CONFIG1, value: config1 | mask }
    }

    /// Set color channel used for threshold value interrupt generation
    ///
    /// The write replaces bits 1:0 of configuration register 3 by the code of
    /// `assignment` and keeps the other bits of its shadow.
    pub fn set_interrupt_threshold_assignment(
        &self,
        assignment: InterruptThresholdAssignment,
    ) -> (write: Write)
        ensures
            Some(write) == self@.request(Setting::ThresholdAssignment(assignment)),
            (write matches Write::Register { register, value } && register == Register::CONFIG3
                && value & 0b0000_0011 == assignment.code() && value & 0b1111_1100
                == self@.config3 & 0b1111_1100),
    {
        let bits: u8 = self.config3.bits;
        let config3: u8 = bits & 0b1111_1100;
        let config3: u8 = match assignment {
            InterruptThresholdAssignment::NoInterrupt => config3,
            InterruptThresholdAssignment::Green => config3 | 1,
            InterruptThresholdAssignment::Red => config3 | 2,
            InterruptThresholdAssignment::Blue => config3 | 3,
        };
        let ghost code: u8 = assignment.code();
        assert((bits & 0b1111_1100) | 0 == bits & 0b1111_1100 && ((bits & 0b1111_1100) | code)
            & 0b0000_0011 == code && ((bits & 0b1111_1100) | code) & 0b1111_1100 == bits
            & 0b1111_1100) by (bit_vector)
            requires
                code <= 3,
        ;
        Write::Register { register: Register::CONFIG3, value: config3 }
    }

    /// Set number of consecutive fault events necessary to trigger an interrupt.
    /// This is referred to as "persistence" in the documentation.
    ///
    /// The write replaces bits 3:2 of configuration register 3 by the code of
    /// `fault_count` and keeps the other bits of its shadow.
    pub fn set_fault_count(&self, fault_count: FaultCount) -> (write: Write)
        ensures
            Some(write) == self@.request(Setting::FaultCount(fault_count)),
            (write matches Write::Register { register, value } && register == Register::CONFIG3
                && (value & 0b0000_1100) >> 2 == fault_count.code() && value & 0b1111_0011
                == self@.config3 & 0b1111_0011),
    {
        let bits: u8 = self.config3.bits;
        let config3: u8 = bits & 0b1111_0011;
        let config3: u8 = match fault_count {
            FaultCount::One => config3,
            FaultCount::Two => config3 | (1 << 2),
            FaultCount::Four => config3 | (2 << 2),
            FaultCount::Eight => config3 | (3 << 2),
        };
        let ghost code: u8 = fault_count.code();
        assert((bits & 0b1111_0011) | (0u8 << 2) == bits & 0b1111_0011 && (((bits & 0b1111_0011)
            | (code << 2)) & 0b0000_1100) >> 2 == code && ((bits & 0b1111_0011) | (code << 2))
            & 0b1111_0011 == bits & 0b1111_0011) by (bit_vector)
            requires
                code <= 3,
        ;
        Write::Register { register: Register::CONFIG3, value: config3 }
    }

    /// Set IR filtering
    ///
    /// The IR adjust value must be in the range `[0-63]`. Providing a
    /// value outside this range will return `Error::InvalidInputData`, and
    /// then there is nothing to write.
    pub fn set_ir_filtering<E>(&self, range: IRFilteringRange) -> (result: Result<Write, Error<E>>)
        ensures
            result is Ok <==> range.magnitude() <= 63,
            result matches Ok(write) ==> Some(write) == self@.request(Setting::IrFiltering(range)),
            (result matches Ok(write) ==> write == (Write::Register {
                register: Register::CONFIG2,
                value: match range {
                    IRFilteringRange::Lower(magnitude) => magnitude,
                    IRFilteringRange::Higher(magnitude) => 0x80 | magnitude,
                },
            })),
            result matches Err(error) ==> error is InvalidInputData,
            result is Err ==> self@.request(Setting::IrFiltering(range)) is None,
    {
        let ir_comp: u8 = match range {
            IRFilteringRange::Lower(v) if v > 63 => return Err(Error::InvalidInputData),
            IRFilteringRange::Lower(v) => v,
            IRFilteringRange::Higher(v) if v > 63 => return Err(Error::InvalidInputData),
            IRFilteringRange::Higher(v) => BitFlags::IR_OFFSET | v,
        };
        Ok(Write::Register { register: Register::CONFIG2, value: ir_comp })
    }

    /// Set ADC resolution
    ///
    /// The write sets bit 4 of configuration register 1 for 12 bits, clears
    /// it for 16 bits, and keeps the other bits of its shadow.
    pub fn set_resolution(&self, resolution: Resolution) -> (write: Write)
        ensures
            Some(write) == self@.request(Setting::Resolution(resolution)),
            (write matches Write::Register { register, value } && register == Register::CONFIG1
                && (value & 0b0001_0000 != 0 <==> resolution == Resolution::Bit12) && value
                & 0b1110_1111 == self@.config1 & 0b1110_1111),
    {
        let config1 = match resolution {
            Resolution::Bit12 => self.config1.with_high(BitFlags::RESOLUTION),
            Resolution::Bit16 => self.config1.with_low(BitFlags::RESOLUTION),
        };
        let bits: u8 = self.config1.bits;
        assert((bits | 0b0001_0000) & 0b0001_0000 != 0 && (bits | 0b0001_0000) & 0b1110_1111 == bits
            & 0b1110_1111 && (bits & !0b0001_0000u8) & 0b0001_0000 == 0 && (bits & !0b0001_0000u8)
            & 0b1110_1111 == bits & 0b1110_1111) by (bit_vector);
        Write::Register { register: Register::CONFIG1, value: config1.bits }
    }

    /// Set RGB data sensing range
    ///
    /// The write sets bit 3 of configuration register 1 for 10000 lux, clears
    /// it for 375 lux, and keeps the other bits of its shadow.
    pub fn set_range(&self, range: Range) -> (write: Write)
        ensures
            Some(write) == self@.request(Setting::Range(range)),
            (write matches Write::Register { register, value } && register == Register::CONFIG1
                && (value & 0b0000_1000 != 0 <==> range == Range::Lux10000) && value & 0b1111_0111
                == self@.config1 & 0b1111_0111),
    {
        let config1 = match range {
            Range::Lux375 => self.config1.with_low(BitFlags::RANGE),
            Range::Lux10000 => self.config1.with_high(BitFlags::RANGE),
        };
        let bits: u8 = self.config1.bits;
        assert((bits | 0b0000_1000) & 0b0000_1000 != 0 && (bits | 0b0000_1000) & 0b1111_0111 == bits
            & 0b1111_0111 && (bits & !0b0000_1000u8) & 0b0000_1000 == 0 && (bits & !0b0000_1000u8)
            & 0b1111_0111 == bits & 0b1111_0111) by (bit_vector);
        Write::Register { register: Register::CONFIG1, value: config1.bits }
    }

    /// Set interrupt pin (INT) mode (Interrupt / Synced conversion start)
    ///
    /// The write sets bit 5 of configuration register 1 for a synced start,
    /// clears it for interrupts, and keeps the other bits of its shadow.
    pub fn set_interrupt_pin_mode(&self, mode: InterruptPinMode) -> (write: Write)
        ensures
            Some(write) == self@.request(Setting::InterruptPinMode(mode)),
            (write matches Write::Register { register, value } && register == Register::CONFIG1
                && (value & 0b0010_0000 != 0 <==> mode == InterruptPinMode::SyncStart) && value
                & 0b1101_1111 == self@.config1 & 0b1101_1111),
    {
        let config1 = match mode {
            InterruptPinMode::Interrupt => self.config1.with_low(BitFlags::SYNC),
            InterruptPinMode::SyncStart => self.config1.with_high(BitFlags::SYNC),
        };
        let bits: u8 = self.config1.bits;
        assert((bits | 0b0010_0000) & 0b0010_0000 != 0 && (bits | 0b0010_0000) & 0b1101_1111 == bits
            & 0b1101_1111 && (bits & !0b0010_0000u8) & 0b0010_0000 == 0 && (bits & !0b0010_0000u8)
            & 0b1101_1111 == bits & 0b1101_1111) by (bit_vector);
        Write::Register { register: Register::CONFIG1, value: config1.bits }
    }

    /// Enable generating an interrupt after a conversion is done
    ///
    /// The write sets bit 4 of configuration register 3 and keeps the other
    /// bits of its shadow.
    pub fn enable_interrupt_on_conversion_done(&self) -> (write: Write)
        ensures
            Some(write) == self@.request(Setting::ConversionInterrupt(true)),
            (write matches Write::Register { register, value } && register == Register::CONFIG3
                && value & 0b0001_0000 != 0 && value & 0b1110_1111 == self@.config3
                & 0b1110_1111),
    {
        let bits: u8 = self.config3.bits;
        assert((bits | 0b0001_0000) & 0b0001_0000 != 0 && (bits | 0b0001_0000) & 0b1110_1111 == bits
            & 0b1110_1111) by (bit_vector);
        Write::Register {
            register: Register::CONFIG3,
            value: self.config3.with_high(BitFlags::CONVEN).bits,
        }
    }

    /// Disable generating an interrupt after a conversion is done
    ///
    /// The write clears bit 4 of configuration register 3 and keeps the other
    /// bits of its shadow.
    pub fn disable_interrupt_on_conversion_done(&self) -> (write: Write)
        ensures
            Some(write) == self@.request(Setting::ConversionInterrupt(false)),
            (write matches Write::Register { register, value } && register == Register::CONFIG3
                && value & 0b0001_0000 == 0 && value & 0b1110_1111 == self@.config3
                & 0b1110_1111),
    {
        let bits: u8 = self.config3.bits;
        assert((bits & !0b0001_0000u8) & 0b0001_0000 == 0 && (bits & !0b0001_0000u8) & 0b1110_1111
            == bits & 0b1110_1111) by (bit_vector);
        Write::Register {
            register: Register::CONFIG3,
            value: self.config3.with_low(BitFlags::CONVEN).bits,
        }
    }

    /// Set interrupt thresholds
    ///
    /// Both thresholds go out in one write of five bytes; every pair of
    /// values is accepted.
    pub fn set_interrupt_thresholds(&self, low: u16, high: u16) -> (write: Write)
        ensures
            Some(write) == self@.request(Setting::Thresholds(low, high)),
            write == (Write::Thresholds { low, high }),
    {
        Write::Thresholds { low, high }
    }

    /// Read the status
    ///
    /// One read of the status register. On the sensor, the read itself clears
    /// both the INT output and the interrupt triggered status flag.
    pub fn status(&self) -> (request: Read<1>)
        ensures
            request.register == Register::STATUS,
    {
        Read { register: Register::STATUS }
    }

    /// Clear the status.
    ///
    /// This must be called after power-up to clear the brownout condition flag.
    pub fn clear_status(&self) -> (write: Write)
        ensures
            write == (Write::Register { register: Register::STATUS, value: 0 }),
    {
        Write::Register { register: Register::STATUS, value: 0 }
    }

    /// Get device ID (`0x7D`)
    pub fn device_id(&self) -> (request: Read<1>)
        ensures
            request.register == Register::DEVICE_ID,
    {
        Read { register: Register::DEVICE_ID }
    }

    /// Software reset
    ///
    /// Whatever the shadows hold, the write stores `0x46` in the device
    /// identifier register.
    pub fn reset(&self) -> (write: Write)
        ensures
            write == (Write::Register { register: Register::DEVICE_ID, value: 0x46 }),
    {
        Write::Register { register: Register::DEVICE_ID, value: 0x46 }
    }
}

} // verus!
