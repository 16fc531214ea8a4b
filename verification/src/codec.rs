//! Register codec: translation between (register address, 16-bit payload)
//! and the 3-byte wire frame.
//!
//! Wire format: byte 0 carries the direction bit (bit 7: 1 = read,
//! 0 = write) and the 7-bit register address; bytes 1 and 2 carry the
//! payload. A payload is presented as two bytes, high byte first; whether
//! those bytes go onto the wire as-is or swapped is a per-register
//! [`ByteOrder`] choice.

use vstd::prelude::*;

verus! {

/// Order in which the two payload bytes appear on the wire, configured
/// per register.
#[derive(Clone, Copy, Debug, PartialEq, Eq, Structural)]
pub enum ByteOrder {
    /// Frame carries the payload bytes as presented: high byte first.
    BigEndian,
    /// Frame carries the payload bytes swapped: low byte first.
    LittleEndian,
}

/// Frame sent to write `payload` to the register at `address`: the
/// direction bit is cleared, and the payload bytes follow in the
/// register's byte order.
pub open spec fn spec_encode_write(address: u8, payload: Seq<u8>, order: ByteOrder) -> Seq<u8> {
    match order {
        ByteOrder::BigEndian => seq![address & 0x7f, payload[0], payload[1]],
        ByteOrder::LittleEndian => seq![address & 0x7f, payload[1], payload[0]],
    }
}

/// Frame sent to read the register at `address`: the direction bit is set
/// and the payload bytes are placeholder zeros, overwritten by the
/// response.
pub open spec fn spec_encode_read(address: u8) -> Seq<u8> {
    seq![address | 0x80, 0u8, 0u8]
}

/// Payload carried by a 3-byte response frame: bytes 1 and 2, reordered
/// per the register's byte order so that a register that swaps on write
/// also swaps on read.
pub open spec fn spec_decode_read(response: Seq<u8>, order: ByteOrder) -> Seq<u8> {
    match order {
        ByteOrder::BigEndian => seq![response[1], response[2]],
        ByteOrder::LittleEndian => seq![response[2], response[1]],
    }
}

/// Builds the 3-byte write frame for `payload` at `address`.
pub fn encode_write(address: u8, payload: [u8; 2], order: ByteOrder) -> (frame: [u8; 3])
    ensures
        frame@ == spec_encode_write(address, payload@, order),
{
    let frame = match order {
        ByteOrder::BigEndian => [address & 0x7f, payload[0], payload[1]],
        ByteOrder::LittleEndian => [address & 0x7f, payload[1], payload[0]],
    };
    proof {
        assert(frame@ =~= spec_encode_write(address, payload@, order));
    }
    frame
}

/// Builds the 3-byte read command frame for `address`.
pub fn encode_read(address: u8) -> (frame: [u8; 3])
    ensures
        frame@ == spec_encode_read(address),
{
    let frame = [address | 0x80, 0u8, 0u8];
    proof {
        assert(frame@ =~= spec_encode_read(address));
    }
    frame
}

/// Extracts the two payload bytes from a 3-byte response frame.
pub fn decode_read(response: [u8; 3], order: ByteOrder) -> (payload: [u8; 2])
    ensures
        payload@ == spec_decode_read(response@, order),
{
    let payload = match order {
        ByteOrder::BigEndian => [response[1], response[2]],
        ByteOrder::LittleEndian => [response[2], response[1]],
    };
    proof {
        assert(payload@ =~= spec_decode_read(response@, order));
    }
    payload
}

/// The two bytes presenting a 16-bit register value: high byte first.
pub open spec fn spec_payload_bytes(value: u16) -> Seq<u8> {
    seq![(value >> 8) as u8, (value & 0xff) as u8]
}

/// The 16-bit register value presented by two payload bytes (high byte
/// first).
pub open spec fn spec_payload_value(payload: Seq<u8>) -> u16 {
    ((payload[0] as u16) << 8) | (payload[1] as u16)
}

/// Presents a 16-bit register value as its two payload bytes.
pub fn payload_bytes(value: u16) -> (payload: [u8; 2])
    ensures
        payload@ == spec_payload_bytes(value),
{
    let payload = [(value >> 8) as u8, (value & 0xff) as u8];
    proof {
        assert(payload@ =~= spec_payload_bytes(value));
    }
    payload
}

/// Reads the 16-bit register value out of two payload bytes.
pub fn payload_value(payload: [u8; 2]) -> (value: u16)
    ensures
        value == spec_payload_value(payload@),
{
    ((payload[0] as u16) << 8) | (payload[1] as u16)
}

/// Payload bytes and 16-bit values present the same information: each
/// conversion inverts the other.
pub proof fn lemma_payload_value_round_trip(value: u16, payload: Seq<u8>)
    requires
        payload.len() == 2,
    ensures
        spec_payload_value(spec_payload_bytes(value)) == value,
        spec_payload_bytes(spec_payload_value(payload)) =~= payload,
{
    let hi = (value >> 8) as u8;
    let lo = (value & 0xff) as u8;
    assert(((hi as u16) << 8) | (lo as u16) == value) by (bit_vector)
        requires
            hi == (value >> 8) as u8 && lo == (value & 0xff) as u8,
    ;
    let p0 = payload[0];
    let p1 = payload[1];
    let v = spec_payload_value(payload);
    assert((v >> 8) as u8 == p0 && (v & 0xff) as u8 == p1) by (bit_vector)
        requires
            v == ((p0 as u16) << 8) | (p1 as u16),
    ;
}

/// Mask selecting the low `width` bits of a 16-bit value.
pub open spec fn spec_mask(width: u16) -> u16 {
    if width >= 16 {
        0xffffu16
    } else {
        ((1u16 << width) - 1) as u16
    }
}

/// Unsigned value of the bit range `[lo, hi)` of a 16-bit register value,
/// 0-indexed from the least significant bit.
pub open spec fn spec_field(value: u16, lo: u16, hi: u16) -> u16 {
    (value >> lo) & spec_mask((hi - lo) as u16)
}

/// Whether the single bit `bit` of a 16-bit register value is set; a
/// one-bit field decodes to this boolean.
pub open spec fn spec_bit(value: u16, bit: u16) -> bool {
    (value >> bit) & 1 == 1
}

/// The 16-bit value with bit `bit` forced to `set` and every other bit
/// unchanged.
pub open spec fn spec_set_bit(value: u16, bit: u16, set: bool) -> u16 {
    if set {
        value | (1u16 << bit)
    } else {
        value & !(1u16 << bit)
    }
}

/// Extracts the bit range `[lo, hi)` of a payload's 16-bit value as an
/// unsigned integer, by shifting and masking.
pub fn extract_field(payload: [u8; 2], lo: u16, hi: u16) -> (field: u16)
    requires
        lo < hi <= 16,
    ensures
        field == spec_field(spec_payload_value(payload@), lo, hi),
        field <= spec_mask((hi - lo) as u16),
{
    let value = payload_value(payload);
    let width = hi - lo;
    let mask = if width >= 16 {
        0xffffu16
    } else {
        proof {
            assert(1u16 << width >= 1) by (bit_vector)
                requires
                    width < 16,
            ;
        }
        (1u16 << width) - 1
    };
    let field = (value >> lo) & mask;
    proof {
        assert((value >> lo) & mask <= mask) by (bit_vector);
    }
    field
}

/// Reads a single bit of a payload's 16-bit value as a boolean field.
pub fn field_bit(payload: [u8; 2], bit: u16) -> (set: bool)
    requires
        bit < 16,
    ensures
        set == spec_bit(spec_payload_value(payload@), bit),
{
    let value = payload_value(payload);
    (value >> bit) & 1 == 1
}

/// Forces one bit of a 16-bit register value, leaving the others alone.
pub fn set_bit(value: u16, bit: u16, set: bool) -> (updated: u16)
    requires
        bit < 16,
    ensures
        updated == spec_set_bit(value, bit, set),
{
    if set {
        value | (1u16 << bit)
    } else {
        value & !(1u16 << bit)
    }
}

/// Setting a bit fixes exactly that bit: afterwards it reads back as
/// `set`, and every other bit reads as it did before.
pub proof fn lemma_set_bit(value: u16, bit: u16, set: bool)
    requires
        bit < 16,
    ensures
        spec_bit(spec_set_bit(value, bit, set), bit) == set,
        forall|other: u16|
            other < 16 && other != bit ==> #[trigger] spec_bit(
                spec_set_bit(value, bit, set),
                other,
            ) == spec_bit(value, other),
{
    assert(((if set {
        value | (1u16 << bit)
    } else {
        value & !(1u16 << bit)
    }) >> bit) & 1 == (if set {
        1u16
    } else {
        0u16
    })) by (bit_vector)
        requires
            bit < 16,
    ;
    assert forall|other: u16| other < 16 && other != bit implies #[trigger] spec_bit(
        spec_set_bit(value, bit, set),
        other,
    ) == spec_bit(value, other) by {
        assert(((if set {
            value | (1u16 << bit)
        } else {
            value & !(1u16 << bit)
        }) >> other) & 1 == (value >> other) & 1) by (bit_vector)
            requires
                bit < 16 && other < 16 && other != bit,
        ;
    }
}

/// Round trip: when the device echoes a write frame back as a response,
/// decoding that response under the same byte order recovers the payload,
/// for every address, every 2-byte payload and both byte-order variants.
pub proof fn lemma_write_read_round_trip(address: u8, payload: Seq<u8>, order: ByteOrder)
    requires
        payload.len() == 2,
    ensures
        spec_decode_read(spec_encode_write(address, payload, order), order) =~= payload,
{
}

/// A read frame is the address with the direction bit set.
pub proof fn lemma_read_frame_direction_bit(address: u8)
    requires
        address < 0x80,
    ensures
        spec_encode_read(address)[0] == address | 0x80,
{
}

/// A write frame is the address with the direction bit cleared, whatever
/// the payload and byte order.
pub proof fn lemma_write_frame_direction_bit(address: u8, payload: Seq<u8>, order: ByteOrder)
    ensures
        spec_encode_write(address, payload, order)[0] == address & 0x7f,
{
}

} // verus!
