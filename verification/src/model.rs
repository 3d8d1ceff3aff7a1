//! The mathematical model of the driver: the two configuration shadows, the
//! write that each setting calls for, and what a completed write does to the
//! shadows.

use vstd::prelude::*;
use crate::registers::{BitFlags, Register};
use crate::request::Write;
use crate::types::{
    FaultCount, IRFilteringRange, InterruptPinMode, InterruptThresholdAssignment, OperatingMode,
    Range, Resolution,
};

verus! {

/// What the driver remembers of the sensor: the byte that it last wrote with
/// success to each of the two configuration registers that hold several
/// fields. Nothing is ever read back from the sensor.
pub struct Shadows {
    /// Last byte written to configuration register 1.
    pub config1: u8,
    /// Last byte written to configuration register 3.
    pub config3: u8,
}

/// One change of configuration, as a value: a setter of the driver together
/// with its argument.
pub enum Setting {
    /// Which channels are converted, or none.
    OperatingMode(OperatingMode),
    /// Width of a conversion.
    Resolution(Resolution),
    /// Full-scale sensing range.
    Range(Range),
    /// Infrared compensation.
    IrFiltering(IRFilteringRange),
    /// Role of the interrupt pin.
    InterruptPinMode(InterruptPinMode),
    /// Channel that the thresholds watch.
    ThresholdAssignment(InterruptThresholdAssignment),
    /// Consecutive faults before an interrupt.
    FaultCount(FaultCount),
    /// Whether the end of a conversion raises an interrupt.
    ConversionInterrupt(bool),
    /// Lower and upper interrupt threshold.
    Thresholds(u16, u16),
}

/// `bits` with the bits of `mask` set where `high` holds, cleared where it
/// does not; every other bit as it was.
pub open spec fn with_bits(bits: u8, mask: u8, high: bool) -> u8 {
    if high {
        bits | mask
    } else {
        bits & !mask
    }
}

impl Setting {
    /// The register that the setting is written to.
    pub open spec fn register(self) -> u8 {
        match self {
            Setting::OperatingMode(_) => Register::CONFIG1,
            Setting::Resolution(_) => Register::CONFIG1,
            Setting::Range(_) => Register::CONFIG1,
            Setting::InterruptPinMode(_) => Register::CONFIG1,
            Setting::IrFiltering(_) => Register::CONFIG2,
            Setting::ThresholdAssignment(_) => Register::CONFIG3,
            Setting::FaultCount(_) => Register::CONFIG3,
            Setting::ConversionInterrupt(_) => Register::CONFIG3,
            Setting::Thresholds(_, _) => Register::THL,
        }
    }

    /// Whether the setting can be written at all: only an infrared
    /// compensation magnitude above 63 cannot.
    pub open spec fn valid(self) -> bool {
        match self {
            Setting::IrFiltering(range) => range.magnitude() <= IRFilteringRange::MAX_MAGNITUDE,
            _ => true,
        }
    }
}

impl Shadows {
    /// The shadows of a driver that has written nothing yet.
    pub open spec fn power_on() -> Shadows {
        Shadows { config1: 0, config3: 0 }
    }

    /// The byte that configuration register 1 gets when `setting` is applied
    /// to its shadow: the field of the setting is replaced, the other bits
    /// are kept. Meaningful for the settings of that register.
    pub open spec fn config1_with(self, setting: Setting) -> u8 {
        match setting {
            Setting::OperatingMode(mode) => (self.config1 & 0b1111_1000) | mode.code(),
            Setting::Resolution(resolution) => with_bits(
                self.config1,
                BitFlags::RESOLUTION,
                resolution == Resolution::Bit12,
            ),
            Setting::Range(range) => with_bits(
                self.config1,
                BitFlags::RANGE,
                range == Range::Lux10000,
            ),
            Setting::InterruptPinMode(mode) => with_bits(
                self.config1,
                BitFlags::SYNC,
                mode == InterruptPinMode::SyncStart,
            ),
            _ => self.config1,
        }
    }

    /// The byte that configuration register 3 gets when `setting` is applied
    /// to its shadow. Meaningful for the settings of that register.
    pub open spec fn config3_with(self, setting: Setting) -> u8 {
        match setting {
            Setting::ThresholdAssignment(assignment) => (self.config3 & 0b1111_1100)
                | assignment.code(),
            Setting::FaultCount(count) => (self.config3 & 0b1111_0011) | (count.code() << 2),
            Setting::ConversionInterrupt(enabled) => with_bits(
                self.config3,
                BitFlags::CONVEN,
                enabled,
            ),
            _ => self.config3,
        }
    }

    /// The write that `setting` calls for when the shadows are `self`, or
    /// `None` where the setting is rejected and nothing is to be written.
    pub open spec fn request(self, setting: Setting) -> Option<Write> {
        match setting {
            Setting::OperatingMode(_) | Setting::Resolution(_) | Setting::Range(_)
            | Setting::InterruptPinMode(_) => Some(
                Write::Register { register: Register::CONFIG1, value: self.config1_with(setting) },
            ),
            Setting::ThresholdAssignment(_) | Setting::FaultCount(_)
            | Setting::ConversionInterrupt(_) => Some(
                Write::Register { register: Register::CONFIG3, value: self.config3_with(setting) },
            ),
            Setting::IrFiltering(range) => match range {
                IRFilteringRange::Lower(magnitude) => if magnitude
                    <= IRFilteringRange::MAX_MAGNITUDE {
                    Some(Write::Register { register: Register::CONFIG2, value: magnitude })
                } else {
                    None
                },
                IRFilteringRange::Higher(magnitude) => if magnitude
                    <= IRFilteringRange::MAX_MAGNITUDE {
                    Some(
                        Write::Register {
                            register: Register::CONFIG2,
                            value: BitFlags::IR_OFFSET | magnitude,
                        },
                    )
                } else {
                    None
                },
            },
            Setting::Thresholds(low, high) => Some(Write::Thresholds { low, high }),
        }
    }

    /// The shadows after `write` was carried out: where the bus reported
    /// success (`ok`) and the write was to configuration register 1 or 3,
    /// that register's shadow is the byte written. In every other case the
    /// shadows are as before.
    pub open spec fn completed(self, write: Write, ok: bool) -> Shadows {
        match write {
            Write::Register { register, value } => if ok && register == Register::CONFIG1 {
                Shadows { config1: value, config3: self.config3 }
            } else if ok && register == Register::CONFIG3 {
                Shadows { config1: self.config1, config3: value }
            } else {
                self
            },
            Write::Thresholds { .. } => self,
        }
    }
}

} // verus!
