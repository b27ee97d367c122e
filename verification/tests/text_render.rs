use ptz_rotator::text::TextRenderer;

static FONT: [u8; 4] = [
    0b0000_0000, 0b0000_0000, // ' '
    0b1000_0001, 0b0000_0011, // '!'
];

#[test]
fn sizes() {
    let r = TextRenderer::new(&FONT, 4, 4);
    assert_eq!(r.char_width(), 4);
    assert_eq!(r.char_height(), 4);
}

#[test]
fn unpack_blank_glyph() {
    let r = TextRenderer::new(&FONT, 4, 4);
    let mut buf = [9u8; 34];
    r.unpack(' ', &mut buf, &[1, 2], &[0, 0]);
    assert!(buf[..32].iter().all(|&b| b == 0));
    assert_eq!(&buf[32..], &[9, 9]);
}

#[test]
fn unpack_sets_foreground_for_set_bits() {
    let r = TextRenderer::new(&FONT, 4, 4);
    let mut buf = [9u8; 32];
    r.unpack('!', &mut buf, &[0xAA, 0xBB], &[0x11, 0x22]);
    // byte 0x81: pixels 0 and 7; byte 0x03: pixels 8 and 9
    for p in 0..16 {
        let set = p == 0 || p == 7 || p == 8 || p == 9;
        let expected = if set { [0xAA, 0xBB] } else { [0x11, 0x22] };
        assert_eq!(&buf[2 * p..2 * p + 2], &expected, "pixel {}", p);
    }
}
