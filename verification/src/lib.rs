//! Verified register protocol of the ISL29125 digital RGB colour light sensor.
//!
//! The ISL29125 is a low power, high sensitivity, red, green and blue colour
//! light sensor with an I2C interface. This crate holds everything that a
//! driver has to know about it, and leaves the bus to the caller:
//!
//! - [`Isl29125`] is the device handle. Each of its operations returns the one
//!   bus transaction that the operation calls for: a [`Write`] for a setter,
//!   a [`Read`] for a query.
//! - The caller carries the transaction out on the transport, which the
//!   handle lends through [`Isl29125::bus`].
//! - The outcome of a write goes back to [`Isl29125::complete`], which keeps
//!   the handle's copy of the configuration registers in step with the
//!   sensor. The outcome of a read goes to the function that decodes it:
//!   [`Measurement::from_reply`], [`color_from_reply`],
//!   [`Status::from_reply`] or [`register_from_reply`].
//!
//! The handle keeps a shadow of configuration registers 1 and 3, each of
//! which holds several fields, so that one field can be changed without
//! reading the register first. The shadows start at zero and are never read
//! back from the sensor: on a sensor that was configured before the handle
//! was made, they are right only from the first write to each register on.
//!
//! Every function is proved against the model in [`model`]; [`laws`] holds
//! what follows for every state and every setting.

pub mod device;
pub mod laws;
pub mod model;
pub mod registers;
pub mod reply;
pub mod request;
pub mod types;

pub use crate::device::Isl29125;
pub use crate::model::{Setting, Shadows};
pub use crate::registers::{BitFlags, Register, ADDR};
pub use crate::reply::{color_from_reply, register_from_reply};
pub use crate::request::{Read, Write};
pub use crate::types::{
    ConversionStatus, Error, FaultCount, IRFilteringRange, InterruptPinMode,
    InterruptThresholdAssignment, Measurement, OperatingMode, Range, Resolution, Status,
};
