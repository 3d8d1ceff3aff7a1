//! The bus transactions that the driver asks for.
//!
//! The driver never touches the bus. Each operation yields one of these
//! values; the caller carries it out on the transport and hands the outcome
//! back.

use vstd::prelude::*;
use crate::registers::{Register, ADDR};

verus! {

/// One write transaction: `payload()` is sent to the sensor in a single bus
/// write.
#[derive(Debug, Clone, Copy, PartialEq, Eq)]
pub enum Write {
    /// Store `value` in `register`.
    Register {
        /// Address of the register that is written.
        register: u8,
        /// The byte it receives.
        value: u8,
    },
    /// Store both interrupt thresholds at once.
    Thresholds {
        /// Lower threshold.
        low: u16,
        /// Upper threshold.
        high: u16,
    },
}

impl Write {
    /// The bytes that go over the bus, in order: the register address, then
    /// the data, each threshold with its low byte first.
    pub open spec fn payload(self) -> Seq<u8> {
        match self {
            Write::Register { register, value } => seq![register, value],
            Write::Thresholds { low, high } => seq![
                Register::THL,
                (low % 256) as u8,
                (low / 256) as u8,
                (high % 256) as u8,
                (high / 256) as u8,
            ],
        }
    }

    /// The bus address that the payload is sent to.
    pub fn address(&self) -> (address: u8)
        ensures
            address == ADDR,
    {
        ADDR
    }

    /// The payload as bytes to hand to the transport.
    pub fn bytes(&self) -> (bytes: Vec<u8>)
        ensures
            bytes@ == self.payload(),
    {
        match *self {
            Write::Register { register, value } => vec![register, value],
            Write::Thresholds { low, high } => {
                assert(low & 0xFF == low % 256 && (low & 0xFF00) >> 8 == low / 256) by (bit_vector);
                assert(high & 0xFF == high % 256 && (high & 0xFF00) >> 8 == high / 256)
                    by (bit_vector);
                vec![
                    Register::THL,
                    (low & 0xFF) as u8,
                    ((low & 0xFF00) >> 8) as u8,
                    (high & 0xFF) as u8,
                    ((high & 0xFF00) >> 8) as u8,
                ]
            },
        }
    }
}

/// One read transaction: `payload()` is written, then `N` bytes are read,
/// both within a single combined bus transaction. The sensor moves on to the
/// next register after each byte, so the bytes read are those of `N`
/// consecutive registers.
#[derive(Debug, Clone, Copy, PartialEq, Eq)]
pub struct Read<const N: usize> {
    /// Address of the first register that is read.
    pub register: u8,
}

impl<const N: usize> Read<N> {
    /// The bytes of the write phase: the register address alone.
    pub open spec fn payload(self) -> Seq<u8> {
        seq![self.register]
    }

    /// The bus address of the transaction.
    pub fn address(&self) -> (address: u8)
        ensures
            address == ADDR,
    {
        ADDR
    }

    /// The number of bytes to read.
    pub fn count(&self) -> (count: usize)
        ensures
            count == N,
    {
        N
    }

    /// The bytes of the write phase, to hand to the transport.
    pub fn bytes(&self) -> (bytes: Vec<u8>)
        ensures
            bytes@ == self.payload(),
    {
        vec![self.register]
    }
}

} // verus!
