//! Driver for a small SPI peripheral with 16-bit registers.
//!
//! Every register access is a fixed 3-byte bus transaction: one byte of
//! direction bit plus 7-bit register address, followed by the two payload
//! bytes in the byte order configured for that register. The codec that
//! builds and parses those frames, the static register map, and the device
//! facade that sequences transactions are all verified.

pub mod codec;
pub mod device;
pub mod registers;
