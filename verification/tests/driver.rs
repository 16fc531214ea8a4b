//! Tests of the device facade against a scripted mock transport, and of
//! the register codec on concrete frames.

use my_driver::codec::{decode_read, encode_read, encode_write, ByteOrder};
use my_driver::device::{EnablePin, MyDriver, MyDriverError, SpiTransport};
use my_driver::registers;

#[derive(Debug, Clone, Copy, PartialEq, Eq)]
struct MockSpiError;

#[derive(Debug, Clone, Copy, PartialEq, Eq)]
struct MockPinError;

/// One scripted bus transaction the mock expects next.
#[derive(Debug, Clone, PartialEq, Eq)]
enum Expectation {
    /// Expect a half-duplex write of exactly these bytes.
    Write([u8; 3]),
    /// Expect a full-duplex transfer of the first frame; respond with the
    /// second.
    Transfer([u8; 3], [u8; 3]),
    /// Fail the next transaction with a transport error.
    Fail,
}

#[derive(Debug, PartialEq, Eq)]
struct MockSpi {
    id: u32,
    expectations: Vec<Expectation>,
    seen: usize,
}

impl MockSpi {
    fn new(id: u32, expectations: &[Expectation]) -> Self {
        MockSpi { id, expectations: expectations.to_vec(), seen: 0 }
    }

    fn done(&self) {
        assert_eq!(self.seen, self.expectations.len(), "unconsumed expectations");
    }
}

impl SpiTransport for MockSpi {
    type SpiError = MockSpiError;

    fn write_frame(&mut self, frame: &[u8; 3]) -> Result<(), MockSpiError> {
        let expected = self.expectations.get(self.seen).expect("unexpected write").clone();
        self.seen += 1;
        match expected {
            Expectation::Write(bytes) => {
                assert_eq!(*frame, bytes);
                Ok(())
            }
            Expectation::Fail => Err(MockSpiError),
            other => panic!("expected {:?}, got write of {:?}", other, frame),
        }
    }

    fn transfer_frame(&mut self, frame: &[u8; 3]) -> Result<[u8; 3], MockSpiError> {
        let expected = self.expectations.get(self.seen).expect("unexpected transfer").clone();
        self.seen += 1;
        match expected {
            Expectation::Transfer(sent, response) => {
                assert_eq!(*frame, sent);
                Ok(response)
            }
            Expectation::Fail => Err(MockSpiError),
            other => panic!("expected {:?}, got transfer of {:?}", other, frame),
        }
    }
}

#[derive(Debug, PartialEq, Eq)]
struct MockPin {
    id: u32,
}

impl EnablePin for MockPin {
    type PinError = MockPinError;
}

type MockMyDriver = MyDriver<MockSpi, MockPin>;

type TestResult = Result<(), MyDriverError<MockSpiError, MockPinError>>;

fn new_mock_my_driver(expectations: &[Expectation]) -> Result<MockMyDriver, MyDriverError<MockSpiError, MockPinError>> {
    let spi_mock = MockSpi::new(1, expectations);
    let ce = MockPin { id: 2 };
    MyDriver::new(spi_mock, ce)
}

fn all_done(my_driver: MockMyDriver) {
    let (spi_mock, ce) = my_driver.destroy();
    // verify expectations, and that the parts handed back are the ones
    // `new_mock_my_driver` passed in
    spi_mock.done();
    assert_eq!(spi_mock.id, 1);
    assert_eq!(ce.id, 2);
}

/// The device-specific linear calibration applied to the raw sensor code.
fn temp_transfer_function(temp_sensor_code: u16) -> f32 {
    0.85 * temp_sensor_code as f32 - 415.0
}

#[test]
fn reset() -> TestResult {
    let spi_expectations = [
        Expectation::Write([0x00, 0x40, 0x22]),
        Expectation::Write([0x00, 0x40, 0x20]),
    ];

    let mut my_driver = new_mock_my_driver(&spi_expectations)?;
    my_driver.reset()?;
    all_done(my_driver);

    Ok(())
}

#[test]
fn temp() -> TestResult {
    let reg: u32 = 76 << 16;
    let mut reg_bytes: Vec<_> = reg.to_be_bytes()[1..].into();
    reg_bytes[0] |= 1 << 7;

    let spi_expectations = [
        // respond with sensor reading of 1000 (0x3E8)
        Expectation::Transfer(
            [reg_bytes[0], reg_bytes[1], reg_bytes[2]],
            [0x00, 0x03, 0xE8],
        ),
    ];

    let mut my_driver = new_mock_my_driver(&spi_expectations)?;
    let code = my_driver.temp_sensor_code()?;
    let temp = temp_transfer_function(code);
    assert_eq!(temp, temp_transfer_function(0x03E8));
    all_done(my_driver);

    Ok(())
}

#[test]
fn round_trip_both_orders() {
    for payload in [[0x00u8, 0x00], [0x12, 0x34], [0xFF, 0xFF], [0xAB, 0x00]] {
        for order in [ByteOrder::BigEndian, ByteOrder::LittleEndian] {
            // the device echoing a write frame back: the response is the
            // frame itself
            let echoed = encode_write(0x2A, payload, order);
            assert_eq!(decode_read(echoed, order), payload);
        }
    }
}

#[test]
fn read_frame_sets_direction_bit() {
    for address in [0u8, 1, 76, 0x7F] {
        assert_eq!(encode_read(address)[0], address | 0x80);
        assert_eq!(&encode_read(address)[1..], &[0, 0]);
    }
}

#[test]
fn write_frame_clears_direction_bit() {
    for address in [0u8, 76, 0x7F, 0x80, 0xFF] {
        let frame = encode_write(address, [0xAA, 0xBB], ByteOrder::BigEndian);
        assert_eq!(frame[0], address & 0x7F);
    }
}

#[test]
fn write_frame_byte_orders() {
    assert_eq!(encode_write(3, [0xAB, 0xCD], ByteOrder::BigEndian), [3, 0xAB, 0xCD]);
    assert_eq!(encode_write(3, [0xAB, 0xCD], ByteOrder::LittleEndian), [3, 0xCD, 0xAB]);
}

#[test]
fn decode_read_byte_orders() {
    assert_eq!(decode_read([0x00, 0x03, 0xE8], ByteOrder::BigEndian), [0x03, 0xE8]);
    assert_eq!(decode_read([0x00, 0x03, 0xE8], ByteOrder::LittleEndian), [0xE8, 0x03]);
}

#[test]
fn bitfield_extraction_and_transfer_function() {
    let raw = my_driver::codec::extract_field([0x03, 0xE8], 0, 11);
    assert_eq!(raw, 1000);
    assert_eq!(temp_transfer_function(raw), 435.0);
    assert_eq!(0.85 * 1000.0 - 415.0, 435.0f32);
}

#[test]
fn payload_value_round_trip() {
    assert_eq!(my_driver::codec::payload_value([0x40, 0x22]), 0x4022);
    assert_eq!(my_driver::codec::payload_bytes(0x4022), [0x40, 0x22]);
    assert_eq!(my_driver::codec::payload_bytes(my_driver::codec::payload_value([0xDE, 0xAD])), [0xDE, 0xAD]);
}

#[test]
fn bit_fields() {
    // control register reset value 0x4070: foo (bit 6) and bar (bit 4) set
    assert!(my_driver::codec::field_bit([0x40, 0x70], registers::FOO_BIT));
    assert!(my_driver::codec::field_bit([0x40, 0x70], registers::BAR_BIT));
    assert!(!my_driver::codec::field_bit([0x40, 0x70], registers::RESET_BIT));
    assert!(!my_driver::codec::field_bit([0x40, 0x70], registers::POWERDOWN_BIT));
    let asserted = my_driver::codec::set_bit(0x4020, registers::RESET_BIT, true);
    assert_eq!(asserted, 0x4022);
    assert_eq!(my_driver::codec::set_bit(asserted, registers::RESET_BIT, false), 0x4020);
}

#[test]
fn register_map() {
    let r0 = registers::r0();
    assert_eq!(r0.address, 0);
    assert_eq!(r0.access, registers::Access::ReadWrite);
    assert_eq!(r0.reset_value, 0x4070);
    assert_eq!(r0.byte_order, ByteOrder::BigEndian);
    let r76 = registers::r76();
    assert_eq!(r76.address, 76);
    assert_eq!(r76.access, registers::Access::ReadOnly);
    assert_eq!(r76.reset_value, 0);
    assert_eq!(r76.byte_order, ByteOrder::BigEndian);
}

#[test]
fn read_register_scenario() -> TestResult {
    let spi_expectations = [Expectation::Transfer([76 | 0x80, 0, 0], [0x00, 0x03, 0xE8])];
    let mut my_driver = new_mock_my_driver(&spi_expectations)?;
    let payload = my_driver.read_register(registers::r76())?;
    assert_eq!(payload, [0x03, 0xE8]);
    all_done(my_driver);
    Ok(())
}

#[test]
fn write_register_frame() -> TestResult {
    let spi_expectations = [Expectation::Write([0x00, 0xAB, 0xCD])];
    let mut my_driver = new_mock_my_driver(&spi_expectations)?;
    my_driver.write_register(registers::r0(), [0xAB, 0xCD])?;
    all_done(my_driver);
    Ok(())
}

#[test]
fn transport_error_surfaces() {
    let spi_expectations = [Expectation::Fail];
    let mut my_driver = new_mock_my_driver(&spi_expectations).unwrap();
    let result = my_driver.write_register(registers::r0(), [0x00, 0x00]);
    assert_eq!(result, Err(MyDriverError::Spi(MockSpiError)));
    let digital: MyDriverError<MockSpiError, MockPinError> =
        MyDriverError::Digital(MockPinError);
    assert_ne!(result, Err(digital));
    all_done(my_driver);
}

#[test]
fn reset_stops_at_first_failure() {
    let spi_expectations = [Expectation::Write([0x00, 0x40, 0x22]), Expectation::Fail];
    let mut my_driver = new_mock_my_driver(&spi_expectations).unwrap();
    assert_eq!(my_driver.reset(), Err(MyDriverError::Spi(MockSpiError)));
    all_done(my_driver);
}

#[test]
fn destroy_returns_parts() {
    let spi_mock = MockSpi::new(7, &[]);
    let ce = MockPin { id: 9 };
    let my_driver = MyDriver::new(spi_mock, ce).unwrap();
    let (spi_back, ce_back) = my_driver.destroy();
    assert_eq!(spi_back, MockSpi::new(7, &[]));
    assert_eq!(ce_back, MockPin { id: 9 });
}
