use ptz_rotator::link::ReadEvent;
use ptz_rotator::e220::{
    empty_rcv_continues, next_init_attempt, E220Mode, E220Command, E220Registers, InitSequence, InitStep, NoiseAttempts,
    RegisterStep, RegisterWrite, RetryStep, INIT_ATTEMPTS,
};
use ptz_rotator::errors::Error;

#[test]
fn register_write_reads_then_writes_then_checks() {
    let mut w = RegisterWrite::new(E220Command::SetRegister, E220Registers::REG2, 19);
    assert_eq!(w.start(), RegisterStep::Read);
    assert_eq!(w.read_done(Ok(18)), RegisterStep::Write([0xC0, 0x04, 0x01, 19]));
    assert_eq!(w.write_done(Ok(19)), RegisterStep::Finished(Ok(())));
}

#[test]
fn register_write_is_skipped_when_the_value_is_there() {
    let mut w = RegisterWrite::new(E220Command::SetRegister, E220Registers::REG2, 19);
    assert_eq!(w.start(), RegisterStep::Read);
    assert_eq!(w.read_done(Ok(19)), RegisterStep::Finished(Ok(())));
}

#[test]
fn key_registers_are_always_written_and_read_back_as_zero() {
    let mut w = RegisterWrite::new(E220Command::SetRegister, E220Registers::CRYPT_H, 50);
    assert_eq!(w.start(), RegisterStep::Read);
    assert_eq!(w.read_done(Ok(50)), RegisterStep::Write([0xC0, 0x06, 0x01, 50]));
    assert_eq!(w.write_done(Ok(0)), RegisterStep::Finished(Ok(())));
}

#[test]
fn register_write_failures() {
    let mut w = RegisterWrite::new(E220Command::ReadRegister, E220Registers::REG2, 19);
    assert_eq!(w.start(), RegisterStep::Finished(Err(Error::WrongCommand)));
    let mut w = RegisterWrite::new(E220Command::SetRegister, E220Registers::REG2, 19);
    w.start();
    assert_eq!(w.read_done(Err(Error::Timeout)), RegisterStep::Finished(Err(Error::Timeout)));
    let mut w = RegisterWrite::new(E220Command::SetTempRegister, E220Registers::REG2, 19);
    w.start();
    assert_eq!(w.read_done(Ok(0)), RegisterStep::Write([0xC2, 0x04, 0x01, 19]));
    assert_eq!(w.write_done(Ok(20)), RegisterStep::Finished(Err(Error::WrongResp)));
    let mut w = RegisterWrite::new(E220Command::SetRegister, E220Registers::REG2, 19);
    w.start();
    w.read_done(Ok(0));
    assert_eq!(w.write_done(Err(Error::WrongResp)), RegisterStep::Finished(Err(Error::WrongResp)));
}

#[test]
fn init_writes_every_register_in_order() {
    let mut init = InitSequence::new(44, 79);
    let mut step = init.start();
    let mut written = Vec::new();
    loop {
        match step {
            InitStep::Write(reg, value) => {
                written.push((reg, value));
                step = init.written(Ok(()));
            }
            InitStep::Finished(r) => {
                assert_eq!(r, Ok(()));
                break;
            }
        }
    }
    assert_eq!(
        written,
        vec![
            (E220Registers::ADDH, 44),
            (E220Registers::ADDL, 79),
            (E220Registers::REG0, 0x62),
            (E220Registers::REG1, 0x63),
            (E220Registers::REG2, 19),
            (E220Registers::REG3, 0xC0),
            (E220Registers::CRYPT_H, 50),
            (E220Registers::CRYPT_L, 19),
        ]
    );
}

#[test]
fn init_stops_at_the_first_failure() {
    let mut init = InitSequence::new(44, 79);
    assert_eq!(init.start(), InitStep::Write(E220Registers::ADDH, 44));
    assert_eq!(init.written(Ok(())), InitStep::Write(E220Registers::ADDL, 79));
    assert_eq!(init.written(Err(Error::WrongResp)), InitStep::Finished(Err(Error::WrongResp)));
}

#[test]
fn startup_attempts() {
    assert_eq!(next_init_attempt(1), Some(2));
    assert_eq!(next_init_attempt(INIT_ATTEMPTS - 1), Some(INIT_ATTEMPTS));
    assert_eq!(next_init_attempt(INIT_ATTEMPTS), None);
}

#[test]
fn noise_attempts() {
    let mut a = NoiseAttempts::new(3);
    assert_eq!(a.start(), RetryStep::Try);
    assert_eq!(a.outcome(Err(Error::Timeout)), RetryStep::Try);
    assert_eq!(a.outcome(Ok(0xA0)), RetryStep::Done(Ok(0xA0)));
    let mut a = NoiseAttempts::new(2);
    assert_eq!(a.outcome(Err(Error::Timeout)), RetryStep::Try);
    assert_eq!(a.outcome(Err(Error::WrongResp)), RetryStep::Done(Err(Error::AttemptsOvf)));
    let a = NoiseAttempts::new(0);
    assert_eq!(a.start(), RetryStep::Done(Err(Error::AttemptsOvf)));
}

#[test]
fn stale_input_is_drained_only_while_aux_is_high() {
    assert!(!empty_rcv_continues(false, None));
    assert!(empty_rcv_continues(true, None));
    assert!(empty_rcv_continues(true, Some(ReadEvent::Data(1, 0x55))));
    assert!(!empty_rcv_continues(false, Some(ReadEvent::Data(1, 0x55))));
    assert!(!empty_rcv_continues(true, Some(ReadEvent::Timeout)));
    assert!(!empty_rcv_continues(true, Some(ReadEvent::Failed)));
}

#[test]
fn only_deep_sleep_skips_the_aux_wait() {
    assert!(E220Mode::ModeNormal.waits_for_aux());
    assert!(E220Mode::ModeWORTransmitting.waits_for_aux());
    assert!(E220Mode::ModeWORReceiving.waits_for_aux());
    assert!(!E220Mode::ModeDeepSleep.waits_for_aux());
}
