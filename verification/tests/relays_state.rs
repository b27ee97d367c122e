use ptz_rotator::relays::Relays;

#[test]
fn new_relays_are_off() {
    let mut r = Relays::new();
    assert!(!r.is_ptz_on());
    assert!(!r.is_lna_on());
    assert_eq!(u8::from(&r), 0);
}

#[test]
fn switching_one_relay_keeps_the_other() {
    let mut r = Relays::new();
    r.ptz_on();
    assert!(r.is_ptz_on());
    assert!(!r.is_lna_on());
    r.lna_on();
    assert!(r.is_ptz_on());
    assert!(r.is_lna_on());
    assert_eq!(u8::from(&r), 3);
    r.ptz_off();
    assert!(!r.is_ptz_on());
    assert!(r.is_lna_on());
    assert_eq!(u8::from(&r), 2);
    r.lna_off();
    assert_eq!(u8::from(&r), 0);
}

#[test]
fn all_on_and_all_off() {
    let mut r = Relays::new();
    r.all_on();
    assert!(r.is_ptz_on() && r.is_lna_on());
    r.all_off();
    assert!(!r.is_ptz_on() && !r.is_lna_on());
}

#[test]
fn relay_byte_is_masked() {
    assert_eq!(u8::from(&Relays::try_from(0x00).unwrap()), 0);
    assert_eq!(u8::from(&Relays::try_from(0x01).unwrap()), 1);
    assert_eq!(u8::from(&Relays::try_from(0x02).unwrap()), 2);
    assert_eq!(u8::from(&Relays::try_from(0xFF).unwrap()), 3);
    assert_eq!(u8::from(&Relays::try_from(0x06).unwrap()), 2);
}

#[test]
fn relay_byte_roundtrip() {
    for v in 0u8..4 {
        let r = Relays::try_from(v).unwrap();
        assert_eq!(Relays::try_from(u8::from(&r)).unwrap(), r);
    }
}
