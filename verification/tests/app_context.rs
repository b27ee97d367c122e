use ptz_rotator::context::AppContext;
use ptz_rotator::pelcod::{AzAngle, ElAngle};
use ptz_rotator::errors::Error;
use ptz_rotator::protocols::{CommandPacket, Protocol};
use ptz_rotator::relays::Relays;

#[test]
fn new_context_is_zero() {
    let ctx = AppContext::new();
    assert_eq!(ctx.target_az, AzAngle(0));
    assert_eq!(ctx.current_el, ElAngle(0));
    assert_eq!(ctx.seq, 0);
    assert_eq!(u8::from(&ctx.power_control), 0);
}

#[test]
fn a_command_sets_targets_and_reports_current_angles() {
    let mut ctx = AppContext::new();
    ctx.current_az = AzAngle(1200);
    ctx.current_el = ElAngle(300);
    let cmd = CommandPacket {
        seq: 9,
        az: AzAngle(20000),
        el: ElAngle(4500),
        relays: Relays::try_from(1).unwrap(),
        rssi: 0xB5,
    };
    let (az, el) = ctx.take_command(&cmd, 0xA1, 9);
    assert_eq!((az, el), (AzAngle(1200), ElAngle(300)));
    assert_eq!(ctx.target_az, AzAngle(20000));
    assert_eq!(ctx.target_el, ElAngle(4500));
    assert_eq!(ctx.current_az, AzAngle(1200));
    assert_eq!(ctx.signal, 0xB5);
    assert_eq!(ctx.noise, 0xA1);
    assert_eq!(ctx.seq, 9);
    assert_eq!(u8::from(&ctx.power_control), 1);
}

#[test]
fn a_command_with_a_noise_level_is_answered() {
    let mut protocol = Protocol::new();
    protocol.set_seq(0x01020304);
    let mut ctx = AppContext::new();
    ctx.current_az = AzAngle(1000);
    ctx.current_el = ElAngle(4500);
    let cmd = CommandPacket {
        seq: 0x01020304,
        az: AzAngle(20000),
        el: ElAngle(100),
        relays: Relays::try_from(3).unwrap(),
        rssi: 0xB0,
    };
    let before = ctx;
    assert!(ctx.handle_command(&mut protocol, &cmd, Err(Error::AttemptsOvf)).is_none());
    assert_eq!(ctx, before);
    let out = ctx.handle_command(&mut protocol, &cmd, Ok(0xA0)).unwrap();
    assert!(out.ptz_on);
    assert!(out.lna_on);
    assert_eq!(
        out.answer.as_slice(),
        &[0xFF, 1, 2, 3, 4, 0x03, 0xE8, 0x11, 0x94, 0xB0, 0xA0, 0x03, 0x3B]
    );
    assert_eq!(ctx.target_az, AzAngle(20000));
    assert_eq!(ctx.target_el, ElAngle(100));
    assert_eq!(ctx.noise, 0xA0);
    assert_eq!(ctx.signal, 0xB0);
    assert_eq!(ctx.seq, 0x01020304);
    assert_eq!(u8::from(&ctx.power_control), 3);
}
