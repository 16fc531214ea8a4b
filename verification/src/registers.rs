//! Static register map of the device: one descriptor per hardware
//! register, plus the bit positions of its named fields.
//!
//! The map holds two registers: the control register at address 0
//! (read-write, with the `foo`, `bar`, `reset` and `powerdown` one-bit
//! fields) and the temperature sensor register at address 76 (read-only,
//! with the 11-bit `rb_temp_sens` field).

use vstd::prelude::*;

use crate::codec::ByteOrder;

verus! {

/// Whether a register may be written or only read.
#[derive(Clone, Copy, Debug, PartialEq, Eq, Structural)]
pub enum Access {
    ReadOnly,
    ReadWrite,
}

/// Static description of one 16-bit hardware register.
#[derive(Clone, Copy, Debug, PartialEq, Eq, Structural)]
pub struct Register {
    /// 7-bit register address.
    pub address: u8,
    /// Whether the register accepts writes.
    pub access: Access,
    /// Value of the register after a device reset; also the base every
    /// written payload is built from.
    pub reset_value: u16,
    /// Order of the payload bytes on the wire for this register.
    pub byte_order: ByteOrder,
}

impl Register {
    /// A register address must fit the 7 address bits of the frame's
    /// first byte.
    pub open spec fn wf(self) -> bool {
        self.address < 0x80
    }
}

/// Bit position of the control register's `foo` field.
pub const FOO_BIT: u16 = 6;

/// Bit position of the control register's `bar` field.
pub const BAR_BIT: u16 = 4;

/// Bit position of the control register's `reset` field.
pub const RESET_BIT: u16 = 1;

/// Bit position of the control register's `powerdown` field.
pub const POWERDOWN_BIT: u16 = 0;

/// First bit of the sensor register's `rb_temp_sens` field.
pub const TEMP_SENS_LO: u16 = 0;

/// Bit past the last of the sensor register's `rb_temp_sens` field: the
/// field spans bits 0 to 10 of the 16-bit value.
pub const TEMP_SENS_HI: u16 = 11;

/// The control register, address 0.
pub open spec fn spec_r0() -> Register {
    Register {
        address: 0,
        access: Access::ReadWrite,
        reset_value: 0x4070,
        byte_order: ByteOrder::BigEndian,
    }
}

/// Descriptor of the control register: address 0, read-write, reset value
/// 0x4070, payload bytes on the wire high byte first.
pub fn r0() -> (register: Register)
    ensures
        register == spec_r0(),
        register.wf(),
{
    Register {
        address: 0,
        access: Access::ReadWrite,
        reset_value: 0x4070,
        byte_order: ByteOrder::BigEndian,
    }
}

/// The temperature sensor register, address 76.
pub open spec fn spec_r76() -> Register {
    Register {
        address: 76,
        access: Access::ReadOnly,
        reset_value: 0,
        byte_order: ByteOrder::BigEndian,
    }
}

/// Descriptor of the temperature sensor register: address 76, read-only,
/// reset value 0, payload bytes on the wire high byte first.
pub fn r76() -> (register: Register)
    ensures
        register == spec_r76(),
        register.wf(),
{
    Register {
        address: 76,
        access: Access::ReadOnly,
        reset_value: 0,
        byte_order: ByteOrder::BigEndian,
    }
}

} // verus!
