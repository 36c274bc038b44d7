use usbd_hid_devices::page::Keyboard;
use hash32::Hasher;
use std::cmp::Ordering;

const KEYBOARD_TABLE: [(u8, &str); 173] = [
    (0x00, "NoEventIndicated"),
    (0x01, "ErrorRollOver"),
    (0x02, "POSTFail"),
    (0x03, "ErrorUndefine"),
    (0x04, "A"),
    (0x05, "B"),
    (0x06, "C"),
    (0x07, "D"),
    (0x08, "E"),
    (0x09, "F"),
    (0x0A, "G"),
    (0x0B, "H"),
    (0x0C, "I"),
    (0x0D, "J"),
    (0x0E, "K"),
    (0x0F, "L"),
    (0x10, "M"),
    (0x11, "N"),
    (0x12, "O"),
    (0x13, "P"),
    (0x14, "Q"),
    (0x15, "R"),
    (0x16, "S"),
    (0x17, "T"),
    (0x18, "U"),
    (0x19, "V"),
    (0x1A, "W"),
    (0x1B, "X"),
    (0x1C, "Y"),
    (0x1D, "Z"),
    (0x1E, "Keyboard1"),
    (0x1F, "Keyboard2"),
    (0x20, "Keyboard3"),
    (0x21, "Keyboard4"),
    (0x22, "Keyboard5"),
    (0x23, "Keyboard6"),
    (0x24, "Keyboard7"),
    (0x25, "Keyboard8"),
    (0x26, "Keyboard9"),
    (0x27, "Keyboard0"),
    (0x28, "ReturnEnter"),
    (0x29, "Escape"),
    (0x2A, "DeleteBackspace"),
    (0x2B, "Tab"),
    (0x2C, "Space"),
    (0x2D, "Minus"),
    (0x2E, "Equal"),
    (0x2F, "LeftBrace"),
    (0x30, "RightBrace"),
    (0x31, "Backslash"),
    (0x32, "NonUSHash"),
    (0x33, "Semicolon"),
    (0x34, "Apostrophe"),
    (0x35, "Grave"),
    (0x36, "Comma"),
    (0x37, "Dot"),
    (0x38, "ForwardSlash"),
    (0x39, "CapsLock"),
    (0x3A, "F1"),
    (0x3B, "F2"),
    (0x3C, "F3"),
    (0x3D, "F4"),
    (0x3E, "F5"),
    (0x3F, "F6"),
    (0x40, "F7"),
    (0x41, "F8"),
    (0x42, "F9"),
    (0x43, "F10"),
    (0x44, "F11"),
    (0x45, "F12"),
    (0x46, "PrintScreen"),
    (0x47, "ScrollLock"),
    (0x48, "Pause"),
    (0x49, "Insert"),
    (0x4A, "Home"),
    (0x4B, "PageUp"),
    (0x4C, "DeleteForward"),
    (0x4D, "End"),
    (0x4E, "PageDown"),
    (0x4F, "RightArrow"),
    (0x50, "LeftArrow"),
    (0x51, "DownArrow"),
    (0x52, "UpArrow"),
    (0x53, "KeypadNumLockAndClear"),
    (0x54, "KeypadDivide"),
    (0x55, "KeypadMultiply"),
    (0x56, "KeypadSubtract"),
    (0x57, "KeypadAdd"),
    (0x58, "KeypadEnter"),
    (0x59, "Keypad1"),
    (0x5A, "Keypad2"),
    (0x5B, "Keypad3"),
    (0x5C, "Keypad4"),
    (0x5D, "Keypad5"),
    (0x5E, "Keypad6"),
    (0x5F, "Keypad7"),
    (0x60, "Keypad8"),
    (0x61, "Keypad9"),
    (0x62, "Keypad0"),
    (0x63, "KeypadDot"),
    (0x64, "NonUSBackslash"),
    (0x65, "Application"),
    (0x66, "Power"),
    (0x67, "KeypadEqual"),
    (0x68, "F13"),
    (0x69, "F14"),
    (0x6A, "F15"),
    (0x6B, "F16"),
    (0x6C, "F17"),
    (0x6D, "F18"),
    (0x6E, "F19"),
    (0x6F, "F20"),
    (0x70, "F21"),
    (0x71, "F22"),
    (0x72, "F23"),
    (0x73, "F24"),
    (0x74, "Execute"),
    (0x75, "Help"),
    (0x76, "Menu"),
    (0x77, "Select"),
    (0x78, "Stop"),
    (0x79, "Again"),
    (0x7A, "Undo"),
    (0x7B, "Cut"),
    (0x7C, "Copy"),
    (0x7D, "Paste"),
    (0x7E, "Find"),
    (0x7F, "Mute"),
    (0x80, "VolumeUp"),
    (0x81, "VolumeDown"),
    (0x82, "LockingCapsLock"),
    (0x83, "LockingNumLock"),
    (0x84, "LockingScrollLock"),
    (0x85, "KeypadComma"),
    (0x86, "KeypadEqualSign"),
    (0x87, "Kanji1"),
    (0x88, "Kanji2"),
    (0x89, "Kanji3"),
    (0x8A, "Kanji4"),
    (0x8B, "Kanji5"),
    (0x8C, "Kanji6"),
    (0x8D, "Kanji7"),
    (0x8E, "Kanji8"),
    (0x8F, "Kanji9"),
    (0x90, "LANG1"),
    (0x91, "LANG2"),
    (0x92, "LANG3"),
    (0x93, "LANG4"),
    (0x94, "LANG5"),
    (0x95, "LANG6"),
    (0x96, "LANG7"),
    (0x97, "LANG8"),
    (0x98, "LANG9"),
    (0x99, "AlternateErase"),
    (0x9A, "SysReqAttention"),
    (0x9B, "Cancel"),
    (0x9C, "Clear"),
    (0x9D, "Prior"),
    (0x9E, "Return"),
    (0x9F, "Separator"),
    (0xA0, "Out"),
    (0xA1, "Oper"),
    (0xA2, "ClearAgain"),
    (0xA3, "CrSelProps"),
    (0xA4, "ExSel"),
    (0xE0, "LeftControl"),
    (0xE1, "LeftShift"),
    (0xE2, "LeftAlt"),
    (0xE3, "LeftGUI"),
    (0xE4, "RightControl"),
    (0xE5, "RightShift"),
    (0xE6, "RightAlt"),
    (0xE7, "RightGUI"),
];

fn keyboard_usages() -> Vec<Keyboard> {
    KEYBOARD_TABLE.iter().map(|(code, _)| Keyboard::from_code(*code)).collect()
}

fn keyboard_fnv(bytes: &[u8]) -> u32 {
    let mut state: u32 = 0x811c_9dc5;
    for byte in bytes {
        state ^= u32::from(*byte);
        state = state.wrapping_mul(0x0100_0193);
    }
    state
}

#[test]
fn keyboard_table_codes_resolve_to_their_usages() {
    for (code, name) in KEYBOARD_TABLE {
        let usage = Keyboard::from_code(code);
        assert_eq!(format!("{:?}", usage), name);
        assert_eq!(usage.to_code(), code);
    }
}

#[test]
fn keyboard_every_code_resolves() {
    let mut bound = 0usize;
    for code in 0..=0xFF {
        let usage = Keyboard::from_code(code);
        let listed = KEYBOARD_TABLE.iter().any(|(known, _)| *known == code);
        if listed {
            assert_eq!(usage.to_code(), code);
            bound += 1;
        } else {
            assert_eq!(usage, Keyboard::NoEventIndicated);
        }
    }
    assert_eq!(bound, 173);
}

#[test]
fn keyboard_round_trip_for_every_usage() {
    for usage in keyboard_usages() {
        assert_eq!(Keyboard::from_code(usage.to_code()), usage);
    }
}

#[test]
fn keyboard_fallback_is_default_with_code_zero() {
    assert_eq!(Keyboard::default(), Keyboard::NoEventIndicated);
    assert_eq!(Keyboard::NoEventIndicated.to_code(), 0);
    assert_eq!(Keyboard::from_code(0), Keyboard::NoEventIndicated);
}

#[test]
fn keyboard_reserved_codes_fall_back() {
    assert_eq!(Keyboard::from_code(0xA5), Keyboard::NoEventIndicated);
    assert_eq!(Keyboard::from_code(0xDF), Keyboard::NoEventIndicated);
    assert_eq!(Keyboard::from_code(0xE8), Keyboard::NoEventIndicated);
    assert_eq!(Keyboard::from_code(0xFF), Keyboard::NoEventIndicated);
}

#[test]
fn keyboard_known_assignments() {
    assert_eq!(Keyboard::from_code(0x01), Keyboard::ErrorRollOver);
    assert_eq!(Keyboard::ErrorRollOver.to_code(), 0x01);
    assert_eq!(Keyboard::from_code(0x39), Keyboard::CapsLock);
    assert_eq!(Keyboard::CapsLock.to_code(), 0x39);
    assert_eq!(Keyboard::from_code(0x56), Keyboard::KeypadSubtract);
    assert_eq!(Keyboard::KeypadSubtract.to_code(), 0x56);
    assert_eq!(Keyboard::from_code(0xE7), Keyboard::RightGUI);
    assert_eq!(Keyboard::RightGUI.to_code(), 0xE7);
}

#[test]
fn keyboard_distinct_usages_have_distinct_codes() {
    let usages = keyboard_usages();
    for (i, a) in usages.iter().enumerate() {
        for (j, b) in usages.iter().enumerate() {
            assert_eq!(a == b, i == j);
            assert_eq!(a.to_code() == b.to_code(), i == j);
        }
    }
}

#[test]
fn keyboard_order_follows_codes() {
    let usages = keyboard_usages();
    for a in usages.iter() {
        for b in usages.iter() {
            let by_code = a.to_code().cmp(&b.to_code());
            assert_eq!(a.partial_cmp(b), Some(by_code));
            assert_eq!(a.cmp(b), by_code);
            assert_eq!(a < b, a.to_code() < b.to_code());
            assert_eq!(a <= b, a.to_code() <= b.to_code());
            assert_eq!(a > b, a.to_code() > b.to_code());
            assert_eq!(a >= b, a.to_code() >= b.to_code());
        }
    }
}

#[test]
fn keyboard_order_examples() {
    assert!(Keyboard::NoEventIndicated < Keyboard::ErrorRollOver);
    assert!(Keyboard::ErrorRollOver < Keyboard::RightGUI);
    assert_eq!(Keyboard::RightGUI.cmp(&Keyboard::ErrorRollOver), Ordering::Greater);
    assert_eq!(Keyboard::ErrorRollOver.cmp(&Keyboard::ErrorRollOver), Ordering::Equal);
    assert_eq!(Keyboard::ErrorRollOver.max(Keyboard::RightGUI), Keyboard::RightGUI);
}

#[test]
fn keyboard_le_bytes_of_codes() {
    assert_eq!(Keyboard::NoEventIndicated.to_le_bytes(), [0x00]);
    assert_eq!(Keyboard::ErrorRollOver.to_le_bytes(), [0x01]);
    assert_eq!(Keyboard::RightGUI.to_le_bytes(), [0xE7]);
    for usage in keyboard_usages() {
        assert_eq!(usage.to_le_bytes(), usage.to_code().to_le_bytes());
    }
}

#[test]
fn keyboard_hash_exact_values() {
    assert_eq!(Keyboard::NoEventIndicated.hash(), 0x050c5d1f);
    assert_eq!(Keyboard::ErrorRollOver.hash(), 0x040c5b8c);
    assert_eq!(Keyboard::RightGUI.hash(), 0x620b5c86);
}

#[test]
fn keyboard_hash_is_fnv_of_le_bytes() {
    for usage in keyboard_usages() {
        let mut hasher = hash32::FnvHasher::default();
        hasher.write(&usage.to_code().to_le_bytes());
        assert_eq!(usage.hash(), hasher.finish());
        assert_eq!(usage.hash(), keyboard_fnv(&usage.to_code().to_le_bytes()));
    }
}

#[test]
fn keyboard_hash_agrees_with_equality() {
    let usages = keyboard_usages();
    for a in usages.iter() {
        for b in usages.iter() {
            let same = a.hash() == b.hash() && a.to_code() == b.to_code();
            assert_eq!(a == b, same);
            if a.to_code() == b.to_code() {
                assert_eq!(a.hash(), b.hash());
            }
        }
    }
}

#[test]
fn keyboard_converts_through_from_and_into() {
    assert_eq!(Keyboard::from(0x56), Keyboard::KeypadSubtract);
    assert_eq!(u8::from(Keyboard::KeypadSubtract), 0x56);
    let code: u8 = Keyboard::KeypadSubtract.into();
    assert_eq!(code, 0x56);
    let usage: Keyboard = 0xA5.into();
    assert_eq!(usage, Keyboard::NoEventIndicated);
}

#[test]
fn keyboard_usages_are_plain_copyable_values() {
    let first = Keyboard::KeypadSubtract;
    let second = first;
    let third = first.clone();
    assert_eq!(first, second);
    assert_eq!(first, third);
    assert_eq!(format!("{:?}", first), "KeypadSubtract");
}
