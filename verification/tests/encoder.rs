use procon_core::procon::NsProcon;
use procon_core::report::{encode, REPORT_LEN, REPORT_TYPE, STATUS_BYTE};
use procon_core::state::{
    ControllerState, AXIS_LH, AXIS_LV, AXIS_RH, AXIS_RV, BUTTON_A, BUTTON_B, BUTTON_CAPTURE,
    BUTTON_DOWN, BUTTON_HOME, BUTTON_L, BUTTON_LEFT, BUTTON_L_STICK, BUTTON_MINUS, BUTTON_PLUS,
    BUTTON_R, BUTTON_RIGHT, BUTTON_R_STICK, BUTTON_UP, BUTTON_X, BUTTON_Y, BUTTON_ZL, BUTTON_ZR,
};

#[test]
fn encode_is_deterministic() {
    let mut s = ControllerState::new([10, 20, 30]);
    s.press(BUTTON_A, true);
    s.press(BUTTON_ZL, true);
    s.set_axis(AXIS_LH, 12345);
    s.set_axis(AXIS_RV, 54321);
    let r1 = encode(&s, 77);
    let r2 = encode(&s, 77);
    assert_eq!(r1, r2);
}

#[test]
fn default_state_report_layout() {
    let s = ControllerState::new([0, 0, 0]);
    let r = encode(&s, 9);
    assert_eq!(r.len(), REPORT_LEN);
    assert_eq!(r[0], REPORT_TYPE);
    assert_eq!(r[1], 9);
    assert_eq!(r[2], STATUS_BYTE);
    // Nothing pressed: all three button bytes clear.
    assert_eq!(&r[3..6], &[0, 0, 0]);
    // Centered sticks: raw 32768 packs to 2048 = 0x800 per axis.
    assert_eq!(&r[6..9], &[0x00, 0x08, 0x80]);
    assert_eq!(&r[9..12], &[0x00, 0x08, 0x80]);
    // Zero padding to the fixed length.
    assert!(r[12..].iter().all(|&b| b == 0));
}

#[test]
fn button_bits_land_on_their_protocol_positions() {
    // (id, report byte index, expected bit) per the Pro Controller layout.
    let cases: Vec<(usize, usize, u8)> = vec![
        (BUTTON_Y, 3, 0x01),
        (BUTTON_X, 3, 0x02),
        (BUTTON_B, 3, 0x04),
        (BUTTON_A, 3, 0x08),
        (BUTTON_R, 3, 0x40),
        (BUTTON_ZR, 3, 0x80),
        (BUTTON_MINUS, 4, 0x01),
        (BUTTON_PLUS, 4, 0x02),
        (BUTTON_R_STICK, 4, 0x04),
        (BUTTON_L_STICK, 4, 0x08),
        (BUTTON_HOME, 4, 0x10),
        (BUTTON_CAPTURE, 4, 0x20),
        (BUTTON_DOWN, 5, 0x01),
        (BUTTON_UP, 5, 0x02),
        (BUTTON_RIGHT, 5, 0x04),
        (BUTTON_LEFT, 5, 0x08),
        (BUTTON_L, 5, 0x40),
        (BUTTON_ZL, 5, 0x80),
    ];
    for &(id, byte, bit) in cases.iter() {
        let mut s = ControllerState::new([0, 0, 0]);
        s.press(id, true);
        let r = encode(&s, 0);
        assert_eq!(r[byte], bit, "button id {id}");
        // Exactly that bit and no other.
        for other in 3..6 {
            if other != byte {
                assert_eq!(r[other], 0, "button id {id} leaked into byte {other}");
            }
        }
    }
}

#[test]
fn button_round_trip_press_then_release() {
    let mut s = ControllerState::new([0, 0, 0]);
    s.press(BUTTON_A, true);
    let pressed = encode(&s, 0);
    assert_eq!(pressed[3] & 0x08, 0x08);
    s.press(BUTTON_A, false);
    let released = encode(&s, 0);
    assert_eq!(released[3] & 0x08, 0x00);
    assert_eq!(&released[3..6], &[0, 0, 0]);
}

#[test]
fn release_clears_exactly_the_released_bit() {
    let mut s = ControllerState::new([0, 0, 0]);
    s.press(BUTTON_A, true);
    s.press(BUTTON_B, true);
    s.press(BUTTON_A, false);
    let r = encode(&s, 0);
    assert_eq!(r[3], 0x04); // B stays, A gone.
}

#[test]
fn axis_scaling_boundaries() {
    let mut s = ControllerState::new([0, 0, 0]);
    // Left horizontal at raw minimum: packed 0.
    s.set_axis(AXIS_LH, 0);
    s.set_axis(AXIS_LV, 0);
    let r = encode(&s, 0);
    assert_eq!(&r[6..9], &[0x00, 0x00, 0x00]);
    // Raw maximum: packed 4095 = 0xFFF on both axes of the stick.
    s.set_axis(AXIS_LH, 65535);
    s.set_axis(AXIS_LV, 65535);
    let r = encode(&s, 0);
    assert_eq!(&r[6..9], &[0xFF, 0xFF, 0xFF]);
    // Raw midpoints: packed center 2048 (and 2047 one below the midpoint).
    s.set_axis(AXIS_LH, 32768);
    s.set_axis(AXIS_LV, 32768);
    let r = encode(&s, 0);
    assert_eq!(&r[6..9], &[0x00, 0x08, 0x80]);
    s.set_axis(AXIS_LH, 32767);
    let r = encode(&s, 0);
    // 2047 = 0x7FF low byte 0xFF, high nibble 0x7.
    assert_eq!(r[6], 0xFF);
    assert_eq!(r[7], 0x07 | 0x00);
}

#[test]
fn right_stick_packs_into_its_own_bytes() {
    let mut s = ControllerState::new([0, 0, 0]);
    s.set_axis(AXIS_RH, 65535);
    s.set_axis(AXIS_RV, 0);
    let r = encode(&s, 0);
    assert_eq!(&r[9..12], &[0xFF, 0x0F, 0x00]);
    // Left stick untouched: still centered.
    assert_eq!(&r[6..9], &[0x00, 0x08, 0x80]);
}

#[test]
fn unrecognized_ids_are_silent_noops() {
    let mut s = ControllerState::new([1, 2, 3]);
    let before = encode(&s, 5);
    s.press(24, true);
    s.press(usize::MAX, true);
    s.set_axis(4, 0);
    s.set_axis(usize::MAX, 0);
    let after = encode(&s, 5);
    assert_eq!(before, after);
}

#[test]
fn handshake_report_carries_the_color() {
    let p = NsProcon::create("/tmp/fakehid", [255, 0, 0]);
    let mut p = p;
    p.start_comms(true).unwrap();
    let h = p.handshake_report();
    assert_eq!(h.len(), REPORT_LEN);
    assert_eq!(h[0], 0x81);
    assert_eq!(h[1], 0x01);
    assert_eq!(&h[2..5], &[255, 0, 0]);
    assert!(h[5..].iter().all(|&b| b == 0));
}
