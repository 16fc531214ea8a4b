//! Device facade: owns the SPI transport and the chip-enable line and
//! sequences register transactions through the codec.
//!
//! The facade keeps a ghost log of every frame it has handed to the
//! transport, so its contracts pin down exactly which bus transactions
//! each operation issues and how a returned payload relates to the bytes
//! the transport delivered.

use vstd::prelude::*;

use crate::codec;
use crate::codec::{
    spec_decode_read, spec_encode_read, spec_encode_write, spec_field, spec_mask,
    spec_payload_bytes, spec_payload_value, spec_set_bit, ByteOrder,
};
use crate::registers;
use crate::registers::{
    spec_r0, spec_r76, Register, BAR_BIT, FOO_BIT, RESET_BIT, TEMP_SENS_HI, TEMP_SENS_LO,
};

verus! {

/// Blocking SPI transport supplied by the hardware abstraction layer.
/// Every transaction of this device is exactly 3 bytes. Implementations
/// live outside the library; nothing is assumed of the bytes a transfer
/// brings back.
pub trait SpiTransport {
    /// Transport-specific error, surfaced verbatim to the caller.
    type SpiError;

    /// Clocks one 3-byte frame onto the bus (half duplex).
    fn write_frame(&mut self, frame: &[u8; 3]) -> Result<(), Self::SpiError>;

    /// Clocks one 3-byte frame onto the bus and returns the 3 bytes
    /// received simultaneously (full duplex).
    fn transfer_frame(&mut self, frame: &[u8; 3]) -> Result<[u8; 3], Self::SpiError>;
}

/// Chip-enable line supplied by the hardware abstraction layer. No
/// register operation drives it yet; the facade only owns it, so all the
/// library needs is its error type.
pub trait EnablePin {
    /// Pin-specific error, reserved for future chip-enable sequencing.
    type PinError;
}

/// One bus transaction as the facade issued it: either a half-duplex
/// write of a frame, or a full-duplex transfer of a sent frame paired
/// with the frame received.
pub ghost enum Transaction {
    Write(Seq<u8>),
    Transfer { sent: Seq<u8>, received: Seq<u8> },
}

/// Error of a register operation, tagged by which collaborator failed.
#[derive(Clone, Copy, Debug, PartialEq, Eq)]
pub enum MyDriverError<SpiError, DigitalError> {
    /// The SPI transport reported an error.
    Spi(SpiError),
    /// The chip-enable line reported an error; reserved, no current
    /// operation drives the line.
    Digital(DigitalError),
}

/// The device handle: exclusive owner of the SPI transport and the
/// chip-enable line for the driver's lifetime.
pub struct MyDriver<Spi, Ce> {
    /// SPI peripheral.
    spi: Spi,
    /// Chip enable.
    ce: Ce,
    /// Ghost log of every transaction handed to the transport, oldest
    /// first.
    issued: Ghost<Seq<Transaction>>,
}

/// Payload value of the first reset write: the control register's reset
/// value with `foo` and `bar` cleared and the `reset` bit asserted.
pub open spec fn spec_reset_assert_value() -> u16 {
    spec_set_bit(
        spec_set_bit(spec_set_bit(spec_r0().reset_value, FOO_BIT, false), BAR_BIT, false),
        RESET_BIT,
        true,
    )
}

/// Payload value of the second reset write: identical to the first but
/// with the `reset` bit cleared, ending the pulse.
pub open spec fn spec_reset_clear_value() -> u16 {
    spec_set_bit(
        spec_set_bit(spec_set_bit(spec_r0().reset_value, FOO_BIT, false), BAR_BIT, false),
        RESET_BIT,
        false,
    )
}

/// Frame of the first reset write.
pub open spec fn spec_reset_assert_frame() -> Seq<u8> {
    spec_encode_write(
        spec_r0().address,
        spec_payload_bytes(spec_reset_assert_value()),
        spec_r0().byte_order,
    )
}

/// Frame of the second reset write.
pub open spec fn spec_reset_clear_frame() -> Seq<u8> {
    spec_encode_write(
        spec_r0().address,
        spec_payload_bytes(spec_reset_clear_value()),
        spec_r0().byte_order,
    )
}

impl<Spi, Ce> MyDriver<Spi, Ce> where Spi: SpiTransport, Ce: EnablePin {
    /// The transport the facade currently owns.
    pub closed spec fn transport(&self) -> Spi {
        self.spi
    }

    /// The chip-enable line the facade currently owns.
    pub closed spec fn enable_pin(&self) -> Ce {
        self.ce
    }

    /// Every transaction handed to the transport so far, oldest first.
    pub closed spec fn log(&self) -> Seq<Transaction> {
        self.issued@
    }

    /// Takes ownership of the transport and the chip-enable line. Always
    /// succeeds; validation is reserved for the future.
    pub fn new(spi: Spi, ce: Ce) -> (result: Result<Self, MyDriverError<
        Spi::SpiError,
        Ce::PinError,
    >>)
        ensures
            result matches Ok(driver) && driver.transport() == spi && driver.enable_pin() == ce
                && driver.log() == Seq::<Transaction>::empty(),
    {
        Ok(MyDriver { spi, ce, issued: Ghost(Seq::empty()) })
    }

    /// Releases ownership of the transport and the chip-enable line back
    /// to the caller, exactly as they were handed to [`MyDriver::new`].
    /// No hardware side effect.
    pub fn destroy(self) -> (parts: (Spi, Ce))
        ensures
            parts.0 == self.transport(),
            parts.1 == self.enable_pin(),
    {
        (self.spi, self.ce)
    }

    /// Writes a 16-bit payload to a writable register: one half-duplex
    /// bus transaction carrying the write frame. On success exactly that
    /// frame was handed to the transport; on failure the transport's
    /// error is surfaced verbatim and nothing was logged.
    pub fn write_register(&mut self, register: Register, payload: [u8; 2]) -> (result: Result<
        (),
        MyDriverError<Spi::SpiError, Ce::PinError>,
    >)
        requires
            register.wf(),
            register.access is ReadWrite,
        ensures
            final(self).enable_pin() == old(self).enable_pin(),
            result is Ok ==> final(self).log() == old(self).log().push(
                Transaction::Write(
                    spec_encode_write(register.address, payload@, register.byte_order),
                ),
            ),
            result matches Err(e) ==> final(self).log() == old(self).log() && e is Spi,
    {
        let frame = codec::encode_write(register.address, payload, register.byte_order);
        match self.spi.write_frame(&frame) {
            Ok(()) => {
                self.issued = Ghost(self.issued@.push(Transaction::Write(frame@)));
                Ok(())
            },
            Err(e) => Err(MyDriverError::Spi(e)),
        }
    }

    /// Reads a register: one full-duplex bus transaction that sends the
    /// read frame and decodes the simultaneous 3-byte response per the
    /// register's byte order. On success the log gained exactly that
    /// transfer and the returned payload is the decode of whatever the
    /// transport delivered; on failure the transport's error is surfaced
    /// verbatim and nothing was logged.
    pub fn read_register(&mut self, register: Register) -> (result: Result<
        [u8; 2],
        MyDriverError<Spi::SpiError, Ce::PinError>,
    >)
        requires
            register.wf(),
        ensures
            final(self).enable_pin() == old(self).enable_pin(),
            result matches Ok(payload) ==> {
                &&& final(self).log().len() == old(self).log().len() + 1
                &&& final(self).log().drop_last() == old(self).log()
                &&& (final(self).log().last() matches Transaction::Transfer { sent, received }
                    && sent == spec_encode_read(register.address) && received.len() == 3
                    && payload@ == spec_decode_read(received, register.byte_order))
            },
            result matches Err(e) ==> final(self).log() == old(self).log() && e is Spi,
    {
        let command = codec::encode_read(register.address);
        match self.spi.transfer_frame(&command) {
            Ok(response) => {
                let payload = codec::decode_read(response, register.byte_order);
                self.issued = Ghost(
                    self.issued@.push(
                        Transaction::Transfer { sent: command@, received: response@ },
                    ),
                );
                proof {
                    assert(self.issued@.drop_last() =~= old(self).issued@);
                }
                Ok(payload)
            },
            Err(e) => Err(MyDriverError::Spi(e)),
        }
    }

    /// Pulses the control register's `reset` bit: exactly two writes to
    /// the control register in order, the first with `reset` asserted and
    /// `foo` and `bar` cleared, the second identical but with `reset`
    /// cleared. No read-back verification and no delay between the
    /// writes; timing, if the hardware needs it, belongs to the caller.
    /// On failure the transport's error is surfaced verbatim and the log
    /// gained the writes that succeeded before it, in order.
    pub fn reset(&mut self) -> (result: Result<(), MyDriverError<Spi::SpiError, Ce::PinError>>)
        ensures
            final(self).enable_pin() == old(self).enable_pin(),
            result is Ok ==> final(self).log() == old(self).log() + seq![
                Transaction::Write(spec_reset_assert_frame()),
                Transaction::Write(spec_reset_clear_frame()),
            ],
            result matches Err(e) ==> e is Spi && (final(self).log() == old(self).log()
                || final(self).log() == old(self).log().push(
                Transaction::Write(spec_reset_assert_frame()),
            )),
    {
        let register = registers::r0();
        let assert_value = codec::set_bit(
            codec::set_bit(
                codec::set_bit(register.reset_value, FOO_BIT, false),
                BAR_BIT,
                false,
            ),
            RESET_BIT,
            true,
        );
        match self.write_register(register, codec::payload_bytes(assert_value)) {
            Ok(()) => (),
            Err(e) => {
                return Err(e);
            },
        }
        let clear_value = codec::set_bit(
            codec::set_bit(
                codec::set_bit(register.reset_value, FOO_BIT, false),
                BAR_BIT,
                false,
            ),
            RESET_BIT,
            false,
        );
        match self.write_register(register, codec::payload_bytes(clear_value)) {
            Ok(()) => (),
            Err(e) => {
                return Err(e);
            },
        }
        proof {
            assert(self.issued@ =~= old(self).issued@ + seq![
                Transaction::Write(spec_reset_assert_frame()),
                Transaction::Write(spec_reset_clear_frame()),
            ]);
        }
        Ok(())
    }

    /// Reads the sensor register and extracts the raw 11-bit temperature
    /// code `rb_temp_sens`. On success the log gained exactly the sensor
    /// read, and the code is the field at bits 0 to 10 of the decoded
    /// payload, so it is below 0x800. The linear transfer function that
    /// turns the code into degrees is floating-point calibration and
    /// lives with the caller.
    pub fn temp_sensor_code(&mut self) -> (result: Result<
        u16,
        MyDriverError<Spi::SpiError, Ce::PinError>,
    >)
        ensures
            final(self).enable_pin() == old(self).enable_pin(),
            result matches Ok(code) ==> {
                &&& final(self).log().len() == old(self).log().len() + 1
                &&& final(self).log().drop_last() == old(self).log()
                &&& (final(self).log().last() matches Transaction::Transfer { sent, received }
                    && sent == spec_encode_read(spec_r76().address) && received.len() == 3
                    && code == spec_field(
                    spec_payload_value(spec_decode_read(received, spec_r76().byte_order)),
                    TEMP_SENS_LO,
                    TEMP_SENS_HI,
                ))
                &&& code < 0x800
            },
            result matches Err(e) ==> final(self).log() == old(self).log() && e is Spi,
    {
        let register = registers::r76();
        match self.read_register(register) {
            Ok(payload) => {
                let code = codec::extract_field(
                    payload,
                    TEMP_SENS_LO,
                    TEMP_SENS_HI,
                );
                proof {
                    assert(spec_mask((TEMP_SENS_HI - TEMP_SENS_LO) as u16) == 0x7ffu16)
                        by (bit_vector);
                }
                Ok(code)
            },
            Err(e) => Err(e),
        }
    }
}

/// The two frames of the reset pulse, byte for byte: under the control
/// register's big-endian byte order the writes carry `{0x40, 0x22}` then
/// `{0x40, 0x20}`; a register configured little-endian would carry the
/// same payloads swapped, `{0x22, 0x40}` then `{0x20, 0x40}`.
pub proof fn lemma_reset_frames()
    ensures
        spec_reset_assert_value() == 0x4022,
        spec_reset_clear_value() == 0x4020,
        spec_reset_assert_frame() =~= seq![0x00u8, 0x40u8, 0x22u8],
        spec_reset_clear_frame() =~= seq![0x00u8, 0x40u8, 0x20u8],
        spec_encode_write(
            spec_r0().address,
            spec_payload_bytes(spec_reset_assert_value()),
            ByteOrder::LittleEndian,
        ) =~= seq![0x00u8, 0x22u8, 0x40u8],
        spec_encode_write(
            spec_r0().address,
            spec_payload_bytes(spec_reset_clear_value()),
            ByteOrder::LittleEndian,
        ) =~= seq![0x00u8, 0x20u8, 0x40u8],
{
    assert(spec_set_bit(
        spec_set_bit(spec_set_bit(0x4070u16, 6, false), 4, false),
        1,
        true,
    ) == 0x4022) by (bit_vector);
    assert(spec_set_bit(
        spec_set_bit(spec_set_bit(0x4070u16, 6, false), 4, false),
        1,
        false,
    ) == 0x4020) by (bit_vector);
    assert(0x4022u16 >> 8 == 0x40 && 0x4022u16 & 0xff == 0x22) by (bit_vector);
    assert(0x4020u16 >> 8 == 0x40 && 0x4020u16 & 0xff == 0x20) by (bit_vector);
    assert(0u8 & 0x7f == 0) by (bit_vector);
}

} // verus!
