use touch_keybinds::keys::normalize_key;

#[test]
fn digits_map_to_themselves() {
    for d in 0u64..10 {
        assert_eq!(normalize_key(0x30 + d), Some(b'0' + d as u8));
    }
}

#[test]
fn letters_map_to_capitals() {
    for l in 0u64..26 {
        assert_eq!(normalize_key(0x41 + l), Some(b'A' + l as u8));
        assert_eq!(normalize_key(0x61 + l), Some(b'A' + l as u8));
    }
}

#[test]
fn other_symbols_are_unmapped() {
    for sym in [0u64, 0x20, 0x2f, 0x3a, 0x40, 0x5b, 0x60, 0x7b, 0xff0d, 0xffe1, u64::MAX] {
        assert_eq!(normalize_key(sym), None);
    }
}
