//! Values that the driver takes and gives.

use vstd::prelude::*;

verus! {

/// All possible errors in this crate
#[derive(Debug)]
pub enum Error<E> {
    /// I²C communication error
    I2C(E),
    /// Invalid input data provided
    InvalidInputData,
}

/// Measurement result
#[derive(Debug, Clone, Copy, PartialEq, Eq)]
pub struct Measurement {
    /// Red
    pub red: u16,
    /// Green
    pub green: u16,
    /// Blue
    pub blue: u16,
}

/// Operating mode
#[derive(Debug, Clone, Copy, PartialEq, Eq)]
pub enum OperatingMode {
    /// Power-Down (ADC conversion)
    PowerDown,
    /// Stand by (No ADC conversion)
    StandBy,
    /// Red only
    RedOnly,
    /// Green only
    GreenOnly,
    /// Blue only
    BlueOnly,
    /// Red/Green
    RedGreen,
    /// Green/Blue
    GreenBlue,
    /// Red/Green/Blue
    RedGreenBlue,
}

impl OperatingMode {
    /// The mode's code in bits 2:0 of configuration register 1.
    pub open spec fn code(self) -> u8 {
        match self {
            OperatingMode::PowerDown => 0,
            OperatingMode::GreenOnly => 1,
            OperatingMode::RedOnly => 2,
            OperatingMode::BlueOnly => 3,
            OperatingMode::StandBy => 4,
            OperatingMode::RedGreenBlue => 5,
            OperatingMode::RedGreen => 6,
            OperatingMode::GreenBlue => 7,
        }
    }
}

impl Default for OperatingMode {
    fn default() -> (mode: Self)
        ensures
            mode == OperatingMode::PowerDown,
    {
        OperatingMode::PowerDown
    }
}

/// ADC resolution
#[derive(Debug, Clone, Copy, PartialEq, Eq)]
pub enum Resolution {
    /// 12-bit resolution
    Bit12,
    /// 16-bit resolution (default)
    Bit16,
}

impl Default for Resolution {
    fn default() -> (resolution: Self)
        ensures
            resolution == Resolution::Bit16,
    {
        Resolution::Bit16
    }
}

/// RGB data sensing range
#[derive(Debug, Clone, Copy, PartialEq, Eq)]
pub enum Range {
    /// 375 lux
    Lux375,
    /// 10000 lux
    Lux10000,
}

impl Default for Range {
    fn default() -> (range: Self)
        ensures
            range == Range::Lux375,
    {
        Range::Lux375
    }
}

/// Interrupt pin (INT) mode
#[derive(Debug, Clone, Copy, PartialEq, Eq)]
pub enum InterruptPinMode {
    /// Interrupts will be generated on exceeded thresholds. (ADC starts when writing to the config 1 register)
    Interrupt,
    /// INT pin is an input. ADC conversion starts on the rising edge at the INT pin.
    SyncStart,
}

impl Default for InterruptPinMode {
    fn default() -> (mode: Self)
        ensures
            mode == InterruptPinMode::Interrupt,
    {
        InterruptPinMode::Interrupt
    }
}

/// IR filtering range, with the compensation magnitude (0-63)
#[derive(Debug, Clone, Copy, PartialEq, Eq)]
pub enum IRFilteringRange {
    /// Lower range (0-63, no offset)
    Lower(u8),
    /// Higher range (0-63 corresponds to 106-169)
    Higher(u8),
}

impl IRFilteringRange {
    /// Largest magnitude that the six-bit compensation field holds.
    pub const MAX_MAGNITUDE: u8 = 63;

    /// The compensation magnitude, whichever the range.
    pub open spec fn magnitude(self) -> u8 {
        match self {
            IRFilteringRange::Lower(v) => v,
            IRFilteringRange::Higher(v) => v,
        }
    }
}

impl Default for IRFilteringRange {
    fn default() -> (range: Self)
        ensures
            range == IRFilteringRange::Lower(0),
    {
        IRFilteringRange::Lower(0)
    }
}

/// Interrupt threshold assignment
#[derive(Debug, Clone, Copy, PartialEq, Eq)]
pub enum InterruptThresholdAssignment {
    /// No interrupt (default)
    NoInterrupt,
    /// Use interrupt thresholds on red channel data.
    Red,
    /// Use interrupt thresholds on green channel data.
    Green,
    /// Use interrupt thresholds on blue channel data.
    Blue,
}

impl InterruptThresholdAssignment {
    /// The assignment's code in bits 1:0 of configuration register 3.
    pub open spec fn code(self) -> u8 {
        match self {
            InterruptThresholdAssignment::NoInterrupt => 0,
            InterruptThresholdAssignment::Green => 1,
            InterruptThresholdAssignment::Red => 2,
            InterruptThresholdAssignment::Blue => 3,
        }
    }
}

impl Default for InterruptThresholdAssignment {
    fn default() -> (assignment: Self)
        ensures
            assignment == InterruptThresholdAssignment::NoInterrupt,
    {
        InterruptThresholdAssignment::NoInterrupt
    }
}

/// Fault count
///
/// Number of consecutive fault events necessary to trigger interrupt.
/// This is referred to as "persistence" in the documentation.
#[derive(Debug, Clone, Copy, PartialEq, Eq)]
pub enum FaultCount {
    /// One (default)
    One,
    /// Two
    Two,
    /// Four
    Four,
    /// Eight
    Eight,
}

impl FaultCount {
    /// The count's code in bits 3:2 of configuration register 3.
    pub open spec fn code(self) -> u8 {
        match self {
            FaultCount::One => 0,
            FaultCount::Two => 1,
            FaultCount::Four => 2,
            FaultCount::Eight => 3,
        }
    }
}

impl Default for FaultCount {
    fn default() -> (count: Self)
        ensures
            count == FaultCount::One,
    {
        FaultCount::One
    }
}

/// Status
#[derive(Debug, Clone, Copy, PartialEq, Eq)]
pub struct Status {
    /// Whether an interrupt was triggered
    pub interrupt_triggered: bool,
    /// Whether a conversion was completed
    pub conversion_completed: bool,
    /// Whether a power-down or brownout condition occurred
    pub brownout: bool,
    /// Wheter a color channel is under conversion
    pub converting: ConversionStatus,
}

impl Default for Status {
    fn default() -> (status: Self)
        ensures
            status == (Status {
                interrupt_triggered: false,
                conversion_completed: false,
                brownout: false,
                converting: ConversionStatus::NoOperation,
            }),
    {
        Status {
            interrupt_triggered: false,
            conversion_completed: false,
            brownout: false,
            converting: ConversionStatus::NoOperation,
        }
    }
}

/// RGB conversion status
#[derive(Debug, Clone, Copy, PartialEq, Eq)]
pub enum ConversionStatus {
    /// No operation
    NoOperation,
    /// Red
    Red,
    /// Green
    Green,
    /// Blue
    Blue,
}

impl ConversionStatus {
    /// The channel that a code in bits 5:4 of the status register stands for.
    pub open spec fn from_code(code: u8) -> ConversionStatus {
        if code == 0 {
            ConversionStatus::NoOperation
        } else if code == 1 {
            ConversionStatus::Green
        } else if code == 2 {
            ConversionStatus::Red
        } else {
            ConversionStatus::Blue
        }
    }
}

impl Default for ConversionStatus {
    fn default() -> (status: Self)
        ensures
            status == ConversionStatus::NoOperation,
    {
        ConversionStatus::NoOperation
    }
}

} // verus!
