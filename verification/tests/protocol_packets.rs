use ptz_rotator::pelcod::{AzAngle, ElAngle};
use ptz_rotator::protocols::{PacketError, Protocol};
use ptz_rotator::relays::Relays;

#[test]
fn crc8_check_value() {
    let mut p = Protocol::new();
    assert_eq!(p.crc8(b"123456789"), 0xEA);
    assert_eq!(p.crc8(&[]), 0x00);
}

#[test]
fn sequence_number_accessors() {
    let mut p = Protocol::new();
    assert_eq!(p.get_seq(), 0);
    p.set_seq(77);
    assert_eq!(p.get_seq(), 77);
}

#[test]
fn answer_packet_bytes() {
    let mut p = Protocol::new();
    p.set_seq(0x01020304);
    let rly = Relays::try_from(3).unwrap();
    let header = p.answer_header(&AzAngle(1000), &ElAngle(4500), 0xB0, 0xA0, &rly);
    assert_eq!(
        header.as_slice(),
        &[0xFF, 1, 2, 3, 4, 0x03, 0xE8, 0x11, 0x94, 0xB0, 0xA0, 0x03]
    );
    let ans = p.make_answer(&AzAngle(1000), &ElAngle(4500), 0xB0, 0xA0, &rly).unwrap();
    assert_eq!(
        ans.as_slice(),
        &[0xFF, 1, 2, 3, 4, 0x03, 0xE8, 0x11, 0x94, 0xB0, 0xA0, 0x03, 0x3B]
    );
    assert_eq!(p.get_seq(), 0x01020304);
    // the CRC over the whole answer, check byte included, is 0
    assert_eq!(p.crc8(ans.as_slice()), 0);
}

fn packet(seq: u8, az: [u8; 2], el: [u8; 2], rly: u8, crc: u8, rssi: u8) -> Vec<u8> {
    vec![0xFF, 0, 0, 0, seq, az[0], az[1], el[0], el[1], rly, crc, rssi]
}

#[test]
fn accepts_a_good_packet() {
    let mut p = Protocol::new();
    let buf = packet(5, [0x03, 0xE8], [0x11, 0x94], 0x02, 0xC5, 0x9A);
    let cmd = p.accept_packet(&buf).unwrap();
    assert_eq!(cmd.seq, 5);
    assert_eq!(cmd.az, AzAngle(1000));
    assert_eq!(cmd.el, ElAngle(4500));
    assert_eq!(u8::from(&cmd.relays), 2);
    assert_eq!(cmd.rssi, 0x9A);
    assert_eq!(p.get_seq(), 5);
}

#[test]
fn refuses_wrong_length() {
    let mut p = Protocol::new();
    let mut buf = packet(5, [0x03, 0xE8], [0x11, 0x94], 0x02, 0xC5, 0x9A);
    buf.push(0);
    assert_eq!(p.accept_packet(&buf), Err(PacketError::Length));
    assert_eq!(p.accept_packet(&buf[..11]), Err(PacketError::Length));
    assert_eq!(p.accept_packet(&[]), Err(PacketError::Length));
    assert_eq!(p.get_seq(), 0);
}

#[test]
fn refuses_wrong_sync_byte() {
    let mut p = Protocol::new();
    let mut buf = packet(5, [0x03, 0xE8], [0x11, 0x94], 0x02, 0xC5, 0x9A);
    buf[0] = 0xFE;
    assert_eq!(p.accept_packet(&buf), Err(PacketError::Sync));
}

#[test]
fn refuses_wrong_crc() {
    let mut p = Protocol::new();
    let buf = packet(5, [0x03, 0xE8], [0x11, 0x94], 0x02, 0xC6, 0x9A);
    assert_eq!(p.accept_packet(&buf), Err(PacketError::Crc));
    assert_eq!(p.get_seq(), 0);
}

#[test]
fn crc_is_given_by_the_caller() {
    let mut p = Protocol::new();
    let buf = packet(5, [0x03, 0xE8], [0x11, 0x94], 0x02, 0x42, 0x9A);
    assert_eq!(p.accept_packet_with_crc(&buf, 0x41), Err(PacketError::Crc));
    assert!(p.accept_packet_with_crc(&buf, 0x42).is_ok());
    assert_eq!(p.get_seq(), 5);
}

#[test]
fn sequence_window() {
    let mut p = Protocol::new();
    p.set_seq(6);
    let back = packet(5, [0x03, 0xE8], [0x11, 0x94], 0x02, 0xC5, 0x9A);
    assert_eq!(p.accept_packet(&back), Err(PacketError::Sequence));
    assert_eq!(p.get_seq(), 6);
    // 6 + 100 = 106 is the farthest step
    let edge = packet(106, [0x03, 0xE8], [0x11, 0x94], 0x02, 0x00, 0x9A);
    assert!(p.accept_packet(&edge).is_ok());
    assert_eq!(p.get_seq(), 106);
    let mut q = Protocol::new();
    q.set_seq(4);
    let far = packet(200, [0x03, 0xE8], [0x11, 0x94], 0x02, 0x76, 0x9A);
    assert_eq!(q.accept_packet(&far), Err(PacketError::Sequence));
    // from 0 any jump is taken
    let mut r = Protocol::new();
    assert!(r.accept_packet(&far).is_ok());
    assert_eq!(r.get_seq(), 200);
    // the same number again is refused: numbers must grow
    let same = packet(4, [0x03, 0xE8], [0x11, 0x94], 0x02, 0x38, 0x9A);
    assert_eq!(q.accept_packet(&same), Err(PacketError::Sequence));
    assert_eq!(q.get_seq(), 4);
    // so is number 0 before any packet was taken
    let mut z = Protocol::new();
    let zero = packet(0, [0x03, 0xE8], [0x11, 0x94], 0x02, 0xFA, 0x9A);
    assert_eq!(z.accept_packet(&zero), Err(PacketError::Sequence));
    assert_eq!(z.get_seq(), 0);
}

#[test]
fn sequence_at_the_top_of_the_range() {
    let mut p = Protocol::new();
    p.set_seq(u32::MAX - 10);
    let mut buf = vec![0xFF, 0xFF, 0xFF, 0xFF, 0xFF, 0x03, 0xE8, 0x11, 0x94, 0x02, 0, 0];
    assert_eq!(p.accept_packet_with_crc(&buf, 0), Ok(ptz_rotator::protocols::CommandPacket {
        seq: u32::MAX,
        az: AzAngle(1000),
        el: ElAngle(4500),
        relays: Relays::try_from(2).unwrap(),
        rssi: 0,
    }));
    buf[4] = 0xFE;
    assert_eq!(p.accept_packet_with_crc(&buf, 0), Err(PacketError::Sequence));
}

#[test]
fn refused_angles_still_take_the_sequence_number() {
    let mut p = Protocol::new();
    let az_bad = packet(5, [0x8C, 0xA1], [0x11, 0x94], 0x02, 0x1B, 0x9A);
    assert_eq!(p.accept_packet(&az_bad), Err(PacketError::Azimuth));
    assert_eq!(p.get_seq(), 5);
    let mut q = Protocol::new();
    let el_bad = packet(5, [0x03, 0xE8], [0x23, 0x29], 0x07, 0x31, 0x9A);
    assert_eq!(q.accept_packet(&el_bad), Err(PacketError::Elevation));
    assert_eq!(q.get_seq(), 5);
}
