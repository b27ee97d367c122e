use ptz_rotator::pelcod::{
    checksum, AzAngle, Command, ElAngle, PelcoSpeed, MAX_AZ, MAX_EL, MAX_SPEED,
};

fn bytes(cmd: &Command) -> Vec<u8> {
    let b: &[u8] = cmd.as_ref();
    b.to_vec()
}

fn speed(v: u8) -> PelcoSpeed {
    PelcoSpeed::try_from(v).unwrap()
}

#[test]
fn checksum_is_sum_modulo_256() {
    assert_eq!(checksum(&[]), 0);
    assert_eq!(checksum(&[1, 2, 3]), 6);
    assert_eq!(checksum(&[0xFF, 0x02]), 0x01);
    assert_eq!(checksum(&[0x80, 0x80, 0x80]), 0x80);
}

#[test]
fn pan_commands() {
    assert_eq!(bytes(&Command::pan_left(1, &speed(0x20))), vec![0xFF, 1, 0, 0x04, 0x20, 0, 0x25]);
    assert_eq!(bytes(&Command::pan_right(1, &speed(0x20))), vec![0xFF, 1, 0, 0x02, 0x20, 0, 0x23]);
    assert_eq!(bytes(&Command::pan_stop(1)), vec![0xFF, 1, 0, 0, 0x12, 0, 0x13]);
}

#[test]
fn tilt_commands() {
    assert_eq!(bytes(&Command::tilt_up(2, &speed(0x3F))), vec![0xFF, 2, 0, 0x08, 0, 0x3F, 0x49]);
    assert_eq!(bytes(&Command::tilt_down(2, &speed(0x3F))), vec![0xFF, 2, 0, 0x10, 0, 0x3F, 0x51]);
    assert_eq!(bytes(&Command::tilt_stop(2)), vec![0xFF, 2, 0, 0, 0, 0x12, 0x14]);
}

#[test]
fn combined_commands() {
    let p = speed(0x10);
    let t = speed(0x20);
    assert_eq!(bytes(&Command::pan_right_tilt_up(1, &p, &t)), vec![0xFF, 1, 0, 0x0A, 0x10, 0x20, 0x3B]);
    assert_eq!(bytes(&Command::pan_right_tilt_down(1, &p, &t)), vec![0xFF, 1, 0, 0x12, 0x10, 0x20, 0x43]);
    assert_eq!(bytes(&Command::pan_left_tilt_up(1, &p, &t)), vec![0xFF, 1, 0, 0x0C, 0x10, 0x20, 0x3D]);
    assert_eq!(bytes(&Command::pan_left_tilt_down(1, &p, &t)), vec![0xFF, 1, 0, 0x14, 0x10, 0x20, 0x45]);
}

#[test]
fn query_commands() {
    assert_eq!(bytes(&Command::query_pan_position(1)), vec![0xFF, 1, 0, 0x51, 0, 0, 0x52]);
    assert_eq!(bytes(&Command::query_tilt_position(1)), vec![0xFF, 1, 0, 0x53, 0, 0, 0x54]);
}

#[test]
fn set_position_commands() {
    // 1000 = 0x03E8; 1 + 0x4B + 0x03 + 0xE8 = 0x137
    assert_eq!(bytes(&Command::set_pan(1, &AzAngle(1000))), vec![0xFF, 1, 0, 0x4B, 0x03, 0xE8, 0x37]);
    // 4500 = 0x1194; 1 + 0x4D + 0x11 + 0x94 = 0xF3
    assert_eq!(bytes(&Command::set_tilt(1, &ElAngle(4500))), vec![0xFF, 1, 0, 0x4D, 0x11, 0x94, 0xF3]);
}

#[test]
fn command_checksum_covers_bytes_one_to_five() {
    let cmd = Command::set_pan(7, &AzAngle(35999));
    let b = bytes(&cmd);
    assert_eq!(b[0], 0xFF);
    assert_eq!(b[6], checksum(&b[1..6]));
    assert_eq!(((b[4] as u16) << 8) | b[5] as u16, 35999);
}

#[test]
fn speed_range() {
    assert!(PelcoSpeed::try_from(MAX_SPEED).is_ok());
    assert_eq!(PelcoSpeed::try_from(MAX_SPEED + 1), Err(()));
    assert_eq!(u8::from(&PelcoSpeed::default()), 0);
    assert_eq!(u8::from(&speed(0x3F).half()), 0x1F);
    assert_eq!(u8::from(&speed(0x20).half().half()), 0x08);
    assert_eq!(*speed(0x11).as_ref(), 0x11);
}

#[test]
fn angle_ranges() {
    assert_eq!(AzAngle::try_from(MAX_AZ), Ok(AzAngle(36000)));
    assert_eq!(AzAngle::try_from(36001), Err(()));
    assert_eq!(ElAngle::try_from(MAX_EL), Ok(ElAngle(9000)));
    assert_eq!(ElAngle::try_from(9001), Err(()));
    assert_eq!(AzAngle::default(), AzAngle(0));
    assert_eq!(ElAngle::default(), ElAngle(0));
    assert_eq!(u16::from(&AzAngle(1234)), 1234);
    assert_eq!(u16::from(&ElAngle(4321)), 4321);
    assert_eq!(*AzAngle(77).as_ref(), 77);
    assert_eq!(*ElAngle(66).as_ref(), 66);
}

#[test]
fn whole_degrees() {
    assert_eq!(AzAngle(35999).whole_degrees(), 359);
    assert_eq!(AzAngle(1000).whole_degrees(), 10);
    assert_eq!(ElAngle(4599).whole_degrees(), 45);
    assert_eq!(ElAngle(99).whole_degrees(), 0);
}
