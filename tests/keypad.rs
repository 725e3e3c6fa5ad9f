use chip8::keypad::Keypad;

#[test]
fn keys_start_up() {
    let k = Keypad::new();
    for key in 0..16u8 {
        assert!(k.is_up(key));
        assert!(!k.is_down(key));
    }
    assert_eq!(k.keys[3], 0x0C);
}

#[test]
fn set_key_down_and_up_keeps_the_code() {
    let mut k = Keypad::new();
    k.set_key(0x3, true);
    assert!(k.is_down(0x3));
    assert!(!k.is_up(0x3));
    assert_eq!(k.keys[3], 0x1C);
    assert!(k.is_up(0x4));
    k.set_key(0x3, false);
    assert!(k.is_up(0x3));
    assert_eq!(k.keys[3], 0x0C);
}

#[test]
fn key_code_is_masked_to_four_bits() {
    let mut k = Keypad::new();
    k.set_key(0x25, true);
    assert!(k.is_down(0x5));
    assert!(k.is_down(0xF5));
}
