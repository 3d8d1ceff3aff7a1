//! What the bytes that come back from the sensor mean.
//!
//! Each function takes the outcome of a read transaction as the transport
//! reported it: the bytes read, or the transport's error, which is handed on
//! as `Error::I2C`.

use vstd::prelude::*;
use crate::registers::BitFlags;
use crate::types::{ConversionStatus, Error, Measurement, Status};

verus! {

/// The 16-bit value that two consecutive registers hold, low byte first.
pub open spec fn word(low: u8, high: u8) -> u16 {
    (low + 256 * high) as u16
}

impl Measurement {
    /// The measurement in the six colour bytes, which the sensor keeps in the
    /// order green, red, blue.
    pub open spec fn decode(data: Seq<u8>) -> Measurement {
        Measurement {
            green: word(data[0], data[1]),
            red: word(data[2], data[3]),
            blue: word(data[4], data[5]),
        }
    }

    /// The measurement that the reply to `Isl29125::read` holds.
    pub fn from_reply<E>(reply: Result<[u8; 6], E>) -> (result: Result<Measurement, Error<E>>)
        ensures
            (result == match reply {
                Ok(data) => Ok::<Measurement, Error<E>>(Measurement::decode(data@)),
                Err(error) => Err(Error::I2C(error)),
            }),
    {
        match reply {
            Ok(data) => Ok(
                Measurement {
                    green: join(data[0], data[1]),
                    red: join(data[2], data[3]),
                    blue: join(data[4], data[5]),
                },
            ),
            Err(error) => Err(Error::I2C(error)),
        }
    }
}

/// Puts the two bytes of a 16-bit register pair together.
fn join(low: u8, high: u8) -> (value: u16)
    ensures
        value == word(low, high),
{
    assert((low as u16) | ((high as u16) << 8) == low + 256 * high) by (bit_vector);
    (low as u16) | ((high as u16) << 8)
}

/// The value of one colour channel that the reply to `Isl29125::red`,
/// `Isl29125::green` or `Isl29125::blue` holds.
pub fn color_from_reply<E>(reply: Result<[u8; 2], E>) -> (result: Result<u16, Error<E>>)
    ensures
        (result == match reply {
            Ok(data) => Ok::<u16, Error<E>>(word(data@[0], data@[1])),
            Err(error) => Err(Error::I2C(error)),
        }),
{
    match reply {
        Ok(data) => Ok(join(data[0], data[1])),
        Err(error) => Err(Error::I2C(error)),
    }
}

/// The byte that the reply to a read of a single register holds, such as the
/// reply to `Isl29125::device_id`. The byte is handed on as it came: the
/// identifier is not compared with the one that the chip should have.
pub fn register_from_reply<E>(reply: Result<[u8; 1], E>) -> (result: Result<u8, Error<E>>)
    ensures
        (result == match reply {
            Ok(data) => Ok::<u8, Error<E>>(data@[0]),
            Err(error) => Err(Error::I2C(error)),
        }),
{
    match reply {
        Ok(data) => Ok(data[0]),
        Err(error) => Err(Error::I2C(error)),
    }
}

impl Status {
    /// The status that a byte of the status register stands for: bit 0
    /// tells of a threshold interrupt, bit 1 of a completed conversion, bit 2
    /// of a brownout, and bits 5:4 name the channel under conversion.
    pub open spec fn decode(bits: u8) -> Status {
        Status {
            interrupt_triggered: bits & BitFlags::RGBTHF != 0,
            conversion_completed: bits & BitFlags::CONVENF != 0,
            brownout: bits & BitFlags::BOUTF != 0,
            converting: ConversionStatus::from_code((bits >> 4) & 0b11),
        }
    }

    /// The status that the reply to `Isl29125::status` holds.
    pub fn from_reply<E>(reply: Result<[u8; 1], E>) -> (result: Result<Status, Error<E>>)
        ensures
            (result == match reply {
                Ok(data) => Ok::<Status, Error<E>>(Status::decode(data@[0])),
                Err(error) => Err(Error::I2C(error)),
            }),
    {
        let status: u8 = match register_from_reply(reply) {
            Ok(status) => status,
            Err(error) => return Err(error),
        };
        assert((status & (3u8 << 4)) >> 4 == (status >> 4) & 0b11) by (bit_vector);
        let converting = match (status & (3 << 4)) >> 4 {
            0 => ConversionStatus::NoOperation,
            1 => ConversionStatus::Green,
            2 => ConversionStatus::Red,
            _ => ConversionStatus::Blue,
        };
        Ok(
            Status {
                interrupt_triggered: (status & BitFlags::RGBTHF) != 0,
                conversion_completed: (status & BitFlags::CONVENF) != 0,
                brownout: (status & BitFlags::BOUTF) != 0,
                converting,
            },
        )
    }
}

} // verus!
