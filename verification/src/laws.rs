//! Laws of the protocol that hold of every state and every setting.

use vstd::prelude::*;
use crate::model::{with_bits, Setting, Shadows};
use crate::registers::{BitFlags, Register};
use crate::types::Status;

verus! {

/// A field update that is made twice gives the byte that it gave once.
proof fn lemma_update_twice(bits: u8, code: u8, mask: u8)
    ensures
        (((bits & 0b1111_1000) | code) & 0b1111_1000) | code == (bits & 0b1111_1000) | code,
        (((bits & 0b1111_1100) | code) & 0b1111_1100) | code == (bits & 0b1111_1100) | code,
        (((bits & 0b1111_0011) | (code << 2)) & 0b1111_0011) | (code << 2) == (bits & 0b1111_0011)
            | (code << 2),
        with_bits(with_bits(bits, mask, true), mask, true) == with_bits(bits, mask, true),
        with_bits(with_bits(bits, mask, false), mask, false) == with_bits(bits, mask, false),
{
    assert((((bits & 0b1111_1000) | code) & 0b1111_1000) | code == (bits & 0b1111_1000) | code
        && (((bits & 0b1111_1100) | code) & 0b1111_1100) | code == (bits & 0b1111_1100) | code
        && (((bits & 0b1111_0011) | (code << 2)) & 0b1111_0011) | (code << 2) == (bits
        & 0b1111_0011) | (code << 2)) by (bit_vector);
    assert((bits | mask) | mask == bits | mask && (bits & !mask) & !mask == bits & !mask)
        by (bit_vector);
}

/// Whether a setting is written depends on the setting alone, never on the
/// shadows: only an infrared compensation magnitude above 63 is rejected.
pub proof fn lemma_rejection_is_by_value(shadows: Shadows, setting: Setting)
    ensures
        shadows.request(setting) is Some <==> setting.valid(),
{
}

/// Idempotence: a setter called twice with the same argument asks for the
/// same write both times, and once the first write has succeeded, the second
/// leaves both shadows as the first left them, whether it succeeds or fails.
/// A setting that is rejected asks for no write either time, by
/// `lemma_rejection_is_by_value`.
pub proof fn lemma_setting_twice(
    shadows: Shadows,
    setting: Setting,
    first_ok: bool,
    second_ok: bool,
)
    ensures
        shadows.request(setting) matches Some(write) ==> ({
            let after = shadows.completed(write, first_ok);
            &&& after.request(setting) == Some(write)
            &&& first_ok ==> after.completed(write, second_ok) == after
        }),
{
    match setting {
        Setting::OperatingMode(mode) => {
            lemma_update_twice(shadows.config1, mode.code(), 0);
        },
        Setting::Resolution(_) => {
            lemma_update_twice(shadows.config1, 0, BitFlags::RESOLUTION);
        },
        Setting::Range(_) => {
            lemma_update_twice(shadows.config1, 0, BitFlags::RANGE);
        },
        Setting::InterruptPinMode(_) => {
            lemma_update_twice(shadows.config1, 0, BitFlags::SYNC);
        },
        Setting::ThresholdAssignment(assignment) => {
            lemma_update_twice(shadows.config3, assignment.code(), 0);
        },
        Setting::FaultCount(count) => {
            lemma_update_twice(shadows.config3, count.code(), 0);
        },
        Setting::ConversionInterrupt(_) => {
            lemma_update_twice(shadows.config3, 0, BitFlags::CONVEN);
        },
        Setting::IrFiltering(_) => {},
        Setting::Thresholds(_, _) => {},
    }
}

/// Sequential independence: a setting of configuration register 1 never
/// changes the shadow of configuration register 3, nor the other way round,
/// and a setting of any other register changes neither. The write that a
/// setting asks for depends on the shadow of its own register alone.
pub proof fn lemma_registers_are_independent(
    shadows: Shadows,
    other: Shadows,
    setting: Setting,
    ok: bool,
)
    ensures
        shadows.request(setting) matches Some(write) ==> ({
            let after = shadows.completed(write, ok);
            &&& setting.register() != Register::CONFIG1 ==> after.config1 == shadows.config1
            &&& setting.register() != Register::CONFIG3 ==> after.config3 == shadows.config3
        }),
        setting.register() == Register::CONFIG1 && other.config1 == shadows.config1
            ==> other.request(setting) == shadows.request(setting),
        setting.register() == Register::CONFIG3 && other.config3 == shadows.config3
            ==> other.request(setting) == shadows.request(setting),
        setting.register() != Register::CONFIG1 && setting.register() != Register::CONFIG3
            ==> other.request(setting) == shadows.request(setting),
{
}

/// A setting of a single bit changes at most that bit of the shadow: the byte
/// to write differs from the shadow in that bit where the bit has to change,
/// and in nothing where it already is as asked.
pub proof fn lemma_single_bit_settings(bits: u8, high: bool)
    ensures
        with_bits(bits, BitFlags::RESOLUTION, high) ^ bits == (if (bits & BitFlags::RESOLUTION != 0)
            == high {
            0u8
        } else {
            BitFlags::RESOLUTION
        }),
        with_bits(bits, BitFlags::RANGE, high) ^ bits == (if (bits & BitFlags::RANGE != 0) == high {
            0u8
        } else {
            BitFlags::RANGE
        }),
        with_bits(bits, BitFlags::SYNC, high) ^ bits == (if (bits & BitFlags::SYNC != 0) == high {
            0u8
        } else {
            BitFlags::SYNC
        }),
        with_bits(bits, BitFlags::CONVEN, high) ^ bits == (if (bits & BitFlags::CONVEN != 0)
            == high {
            0u8
        } else {
            BitFlags::CONVEN
        }),
{
    assert(((bits | 0b0001_0000) ^ bits == (if bits & 0b0001_0000 != 0 {
        0u8
    } else {
        0b0001_0000u8
    })) && ((bits & !0b0001_0000u8) ^ bits == (if bits & 0b0001_0000 != 0 {
        0b0001_0000u8
    } else {
        0u8
    }))) by (bit_vector);
    assert(((bits | 0b0000_1000) ^ bits == (if bits & 0b0000_1000 != 0 {
        0u8
    } else {
        0b0000_1000u8
    })) && ((bits & !0b0000_1000u8) ^ bits == (if bits & 0b0000_1000 != 0 {
        0b0000_1000u8
    } else {
        0u8
    }))) by (bit_vector);
    assert(((bits | 0b0010_0000) ^ bits == (if bits & 0b0010_0000 != 0 {
        0u8
    } else {
        0b0010_0000u8
    })) && ((bits & !0b0010_0000u8) ^ bits == (if bits & 0b0010_0000 != 0 {
        0b0010_0000u8
    } else {
        0u8
    }))) by (bit_vector);
}

/// Each field of the status depends on its own bits of the status byte
/// alone: two bytes that agree on the bits of a field decode to the same
/// value of that field, whatever their other bits. Bits 3, 6 and 7 belong to
/// no field.
pub proof fn lemma_status_fields_are_independent(a: u8, b: u8)
    ensures
        a & 0b0000_0001 == b & 0b0000_0001 ==> Status::decode(a).interrupt_triggered
            == Status::decode(b).interrupt_triggered,
        a & 0b0000_0010 == b & 0b0000_0010 ==> Status::decode(a).conversion_completed
            == Status::decode(b).conversion_completed,
        a & 0b0000_0100 == b & 0b0000_0100 ==> Status::decode(a).brownout == Status::decode(
            b,
        ).brownout,
        a & 0b0011_0000 == b & 0b0011_0000 ==> Status::decode(a).converting == Status::decode(
            b,
        ).converting,
        a & 0b0011_0111 == b & 0b0011_0111 ==> Status::decode(a) == Status::decode(b),
{
    assert(a & 0b0011_0000 == b & 0b0011_0000 ==> (a >> 4) & 0b11 == (b >> 4) & 0b11)
        by (bit_vector);
    assert(a & 0b0011_0111 == b & 0b0011_0111 ==> a & 0b0000_0001 == b & 0b0000_0001 && a
        & 0b0000_0010 == b & 0b0000_0010 && a & 0b0000_0100 == b & 0b0000_0100 && a & 0b0011_0000
        == b & 0b0011_0000) by (bit_vector);
}

} // verus!
