use ptz_rotator::e220::{
    init_registers, noise_request, packet_header, packet_rx_action, read_register_request,
    register_needs_write, rssi_to_dbm, set_register_outcome, set_register_request, E220AirRate,
    E220Command, E220LBT, E220Mode, E220Noise, E220Power, E220Registers, E220Rssi,
    E220SerialParity, E220SerialRate, E220SubPacket, E220Transmission, E220WOR, ReplyReader,
    ReplyStep, RADIO_CHANNEL,
};
use ptz_rotator::errors::Error;
use ptz_rotator::link::{drain_continues, read_byte_result, ReadEvent, RxAction};

#[test]
fn mode_pins() {
    assert_eq!(<(bool, bool)>::from(E220Mode::ModeNormal), (false, false));
    assert_eq!(<(bool, bool)>::from(E220Mode::ModeWORTransmitting), (false, true));
    assert_eq!(<(bool, bool)>::from(E220Mode::ModeWORReceiving), (true, false));
    assert_eq!(<(bool, bool)>::from(E220Mode::ModeDeepSleep), (true, true));
    assert!(E220Mode::default() == E220Mode::ModeNormal);
}

#[test]
fn register_addresses_and_codes() {
    assert_eq!(E220Registers::ADDH.address(), 0);
    assert_eq!(E220Registers::REG3.address(), 5);
    assert_eq!(E220Registers::CRYPT_L.address(), 7);
    assert!(E220Registers::CRYPT_H.is_crypt());
    assert!(!E220Registers::REG0.is_crypt());
    assert_eq!(E220Command::SetRegister.code(), 0xC0);
    assert_eq!(E220Command::ReadRegister.code(), 0xC1);
    assert_eq!(E220Command::SetTempRegister.code(), 0xC2);
    assert!(E220Command::default() == E220Command::SetRegister);
}

#[test]
fn configuration_bits() {
    assert_eq!(E220SerialRate::default().bits(), 0b0110_0000);
    assert_eq!(E220SerialRate::Rate115200.bits(), 0b1110_0000);
    assert_eq!(E220SerialParity::default().bits(), 0);
    assert_eq!(E220SerialParity::P8E1.bits(), 0b0001_0000);
    assert_eq!(E220AirRate::default().bits(), 0b10);
    assert_eq!(E220AirRate::Rate62500.bits(), 0b111);
    assert_eq!(E220SubPacket::default().bits(), 0);
    assert_eq!(E220SubPacket::Bytes32.bits(), 0b1100_0000);
    assert_eq!(E220Noise::default().bits(), 0);
    assert_eq!(E220Noise::Enable.bits(), 0b0010_0000);
    assert_eq!(E220Power::default().bits(), 0);
    assert_eq!(E220Power::Dbm10.bits(), 0b11);
    assert_eq!(E220Rssi::default().bits(), 0);
    assert_eq!(E220Rssi::Enable.bits(), 0b1000_0000);
    assert_eq!(E220Transmission::default().bits(), 0);
    assert_eq!(E220Transmission::Fixed.bits(), 0b0100_0000);
    assert_eq!(E220LBT::default().bits(), 0);
    assert_eq!(E220LBT::Enable.bits(), 0b0001_0000);
    assert_eq!(E220WOR::Ms4000.bits(), 0b111);
}

#[test]
fn requests() {
    assert_eq!(read_register_request(E220Registers::REG2), [0xC1, 0x04, 0x01]);
    assert_eq!(set_register_request(E220Command::SetRegister, E220Registers::ADDL, 79), Ok([0xC0, 0x01, 0x01, 79]));
    assert_eq!(set_register_request(E220Command::SetTempRegister, E220Registers::REG0, 0x62), Ok([0xC2, 0x02, 0x01, 0x62]));
    assert_eq!(set_register_request(E220Command::ReadRegister, E220Registers::REG0, 1), Err(Error::WrongCommand));
    assert_eq!(noise_request(), [0xC0, 0xC1, 0xC2, 0xC3, 0x00, 0x01]);
    assert_eq!(packet_header(78, 6), [78, 6, RADIO_CHANNEL]);
}

#[test]
fn writes_are_skipped_when_the_value_is_there() {
    assert!(!register_needs_write(E220Registers::REG0, 0x62, 0x62));
    assert!(register_needs_write(E220Registers::REG0, 0x61, 0x62));
    assert!(register_needs_write(E220Registers::CRYPT_H, 50, 50));
    assert!(register_needs_write(E220Registers::CRYPT_L, 19, 19));
}

#[test]
fn write_outcomes() {
    assert_eq!(set_register_outcome(E220Registers::REG2, 19, 19), Ok(()));
    assert_eq!(set_register_outcome(E220Registers::REG2, 19, 18), Err(Error::WrongResp));
    assert_eq!(set_register_outcome(E220Registers::CRYPT_H, 50, 0), Ok(()));
    assert_eq!(set_register_outcome(E220Registers::CRYPT_H, 50, 49), Err(Error::WrongResp));
    assert_eq!(set_register_outcome(E220Registers::REG2, 19, 0), Err(Error::WrongResp));
}

#[test]
fn register_reply_is_read() {
    let mut r = ReplyReader::register(E220Registers::REG1);
    assert_eq!(r.feed(Ok(0xC1)), ReplyStep::More);
    assert_eq!(r.feed(Ok(0x03)), ReplyStep::More);
    assert_eq!(r.feed(Ok(0x01)), ReplyStep::More);
    assert_eq!(r.feed(Ok(0x61)), ReplyStep::Value(0x61));
}

#[test]
fn register_reply_failures() {
    let mut r = ReplyReader::register(E220Registers::REG1);
    assert_eq!(r.feed(Ok(0xFF)), ReplyStep::Fail(Error::WrongResp));
    let mut r = ReplyReader::register(E220Registers::REG1);
    assert_eq!(r.feed(Ok(0xC1)), ReplyStep::More);
    assert_eq!(r.feed(Ok(0x02)), ReplyStep::Fail(Error::WrongResp));
    let mut r = ReplyReader::register(E220Registers::REG1);
    assert_eq!(r.feed(Err(Error::Timeout)), ReplyStep::Fail(Error::Timeout));
}

#[test]
fn noise_reply_is_read() {
    let mut r = ReplyReader::noise();
    assert_eq!(r.feed(Ok(0xC1)), ReplyStep::More);
    assert_eq!(r.feed(Ok(0x00)), ReplyStep::More);
    assert_eq!(r.feed(Ok(0x01)), ReplyStep::More);
    assert_eq!(r.feed(Ok(0xA0)), ReplyStep::Value(0xA0));
    let mut r = ReplyReader::noise();
    assert_eq!(r.feed(Ok(0xC1)), ReplyStep::More);
    assert_eq!(r.feed(Ok(0x01)), ReplyStep::Fail(Error::WrongResp));
}

#[test]
fn init_plan() {
    let plan = init_registers(44, 79);
    let expected = [
        (E220Registers::ADDH, 44),
        (E220Registers::ADDL, 79),
        (E220Registers::REG0, 0x62),
        (E220Registers::REG1, 0x63),
        (E220Registers::REG2, 19),
        (E220Registers::REG3, 0xC0),
        (E220Registers::CRYPT_H, 50),
        (E220Registers::CRYPT_L, 19),
    ];
    assert_eq!(plan, expected);
}

#[test]
fn packet_receive_loop() {
    assert_eq!(packet_rx_action(0, ReadEvent::Data(1, 0xAB), false), RxAction::Store(0xAB));
    assert_eq!(packet_rx_action(204, ReadEvent::Data(1, 0xAB), true), RxAction::Store(0xAB));
    assert_eq!(packet_rx_action(205, ReadEvent::Data(1, 0xAB), false), RxAction::Stop);
    assert_eq!(packet_rx_action(3, ReadEvent::Data(2, 0xAB), false), RxAction::Stop);
    assert_eq!(packet_rx_action(3, ReadEvent::Data(0, 0xAB), false), RxAction::Stop);
    assert_eq!(packet_rx_action(3, ReadEvent::Timeout, false), RxAction::Skip);
    assert_eq!(packet_rx_action(3, ReadEvent::Timeout, true), RxAction::Stop);
    assert_eq!(packet_rx_action(3, ReadEvent::Failed, false), RxAction::Stop);
}

#[test]
fn single_byte_reads() {
    assert_eq!(read_byte_result(ReadEvent::Data(1, 7)), Ok(7));
    assert_eq!(read_byte_result(ReadEvent::Data(0, 7)), Err(Error::E220ReadErr));
    assert_eq!(read_byte_result(ReadEvent::Failed), Err(Error::E220ReadErr));
    assert_eq!(read_byte_result(ReadEvent::Timeout), Err(Error::Timeout));
}

#[test]
fn draining_stale_input() {
    assert!(drain_continues(ReadEvent::Data(1, 0)));
    assert!(drain_continues(ReadEvent::Data(0, 0)));
    assert!(!drain_continues(ReadEvent::Timeout));
    assert!(!drain_continues(ReadEvent::Failed));
}

#[test]
fn rssi_in_dbm() {
    assert_eq!(rssi_to_dbm(0), -256);
    assert_eq!(rssi_to_dbm(255), -1);
    assert_eq!(rssi_to_dbm(0xA0), -96);
}

#[test]
fn errors_from_std() {
    let bad = [0xFFu8];
    let e = core::str::from_utf8(&bad).unwrap_err();
    assert_eq!(Error::from(e), Error::EncodingError);
    assert_eq!(Error::from(core::fmt::Error), Error::FmtError);
}
