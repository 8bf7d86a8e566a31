use retro_cores::devices::keyboard::Keyboard;
use retro_cores::devices::segment::{render, render_hex, HEX_PATTERNS, MINUS};

#[test]
fn test_patterns_have_correct_count() {
    assert_eq!(HEX_PATTERNS.len(), 16);
}

#[test]
#[allow(non_snake_case)]
fn test_pattern_0_has_A() {
    assert!(HEX_PATTERNS[0] & 0x01 != 0, "0 should have segment A (bit0)");
}

#[test]
#[allow(non_snake_case)]
fn test_pattern_0_no_G() {
    assert_eq!(HEX_PATTERNS[0] & 0x40, 0, "0 should not have segment G");
}

#[test]
#[allow(non_snake_case)]
fn test_pattern_1_only_BC() {
    assert_eq!(HEX_PATTERNS[1] & 0x06, 0x06, "1 should have B+C only");
    assert_eq!(HEX_PATTERNS[1] & 0x01, 0, "1 should not have A");
}

#[test]
fn test_pattern_8_all_on() {
    assert_eq!(HEX_PATTERNS[8], 0x7F, "8 should have all segments");
}

#[test]
fn test_render_all_on() {
    let mut buf = [0u8; 13 * 13];
    render(0x7F, &mut buf, 13, 13, 13);
    assert!(buf[0 * 13 + 5] != 0);
    assert!(buf[6 * 13 + 5] != 0);
    assert!(buf[12 * 13 + 5] != 0);
}

#[test]
fn test_render_all_off() {
    let mut buf = [0u8; 13 * 13];
    render(0x00, &mut buf, 13, 13, 13);
    assert!(buf.iter().all(|&p| p == 0));
}

#[test]
fn segment_minus_lights_only_the_middle_bar() {
    let mut buf = [0u8; 13 * 13];
    render(MINUS, &mut buf, 13, 13, 13);
    assert!(buf[6 * 13 + 5] != 0);
    assert_eq!(buf[0 * 13 + 5], 0);
    assert_eq!(buf[12 * 13 + 5], 0);
    let mut hex = [0u8; 13 * 13];
    render_hex(8, &mut hex, 13, 13, 13);
    let mut all = [0u8; 13 * 13];
    render(0x7F, &mut all, 13, 13, 13);
    assert_eq!(hex, all);
}

#[test]
fn test_press_release() {
    let mut kb = Keyboard::new();
    assert!(!kb.is_pressed(0xA));
    kb.press(0xA);
    assert!(kb.is_pressed(0xA));
    kb.release(0xA);
    assert!(!kb.is_pressed(0xA));
}

#[test]
fn test_any_pressed() {
    let mut kb = Keyboard::new();
    assert_eq!(kb.any_pressed(), None);
    kb.press(0x5);
    assert_eq!(kb.any_pressed(), Some(0x5));
}

#[test]
fn test_out_of_range_ignored() {
    let mut kb = Keyboard::new();
    kb.press(0xFF);
    assert!(!kb.is_pressed(0xFF));
}

#[test]
fn keyboard_lowest_pressed_key_wins() {
    let mut kb = Keyboard::new();
    kb.press(0xC);
    kb.press(0x3);
    assert_eq!(kb.any_pressed(), Some(0x3));
    kb.release(0x3);
    assert_eq!(kb.any_pressed(), Some(0xC));
}
