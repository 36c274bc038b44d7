use usbd_hid_devices::page::Desktop;
use hash32::Hasher;
use std::cmp::Ordering;

const DESKTOP_TABLE: [(u8, &str); 53] = [
    (0x00, "Undefined"),
    (0x01, "Pointer"),
    (0x02, "Mouse"),
    (0x04, "Joystick"),
    (0x05, "GamePad"),
    (0x06, "Keyboard"),
    (0x07, "Keypad"),
    (0x08, "MultiAxisController"),
    (0x09, "TabletPcSystemControls"),
    (0x30, "X"),
    (0x31, "Y"),
    (0x32, "Z"),
    (0x33, "Rx"),
    (0x34, "Ry"),
    (0x35, "Rz"),
    (0x36, "Slider"),
    (0x37, "Dial"),
    (0x38, "Wheel"),
    (0x39, "HatSwitch"),
    (0x3A, "CountedBuffer"),
    (0x3B, "ByteCount"),
    (0x3C, "MotionWakeup"),
    (0x3D, "Start"),
    (0x3E, "Select"),
    (0x40, "Vx"),
    (0x41, "Vy"),
    (0x42, "Vz"),
    (0x43, "Vbrx"),
    (0x44, "Vbry"),
    (0x45, "Vbrz"),
    (0x46, "Vno"),
    (0x47, "FeatureNotification"),
    (0x48, "ResolutionMultiplier"),
    (0x80, "SystemControl"),
    (0x81, "SystemPowerDown"),
    (0x82, "SystemSleep"),
    (0x83, "SystemWakeUp"),
    (0x84, "SystemContextMenu"),
    (0x85, "SystemMainMenu"),
    (0x86, "SystemAppMenu"),
    (0x87, "SystemHelpMenu"),
    (0x88, "SystemMenuExit"),
    (0x89, "SystemMenuSelect"),
    (0x8A, "SystemMenuRight"),
    (0x8B, "SystemMenuLeft"),
    (0x8C, "SystemMenuUp"),
    (0x8D, "SystemMenuDown"),
    (0x8E, "SystemColdRestart"),
    (0x8F, "SystemWarmRestart"),
    (0x90, "DPadUp"),
    (0x91, "DPadDown"),
    (0x92, "DPadRight"),
    (0x93, "DPadLeft"),
];

fn desktop_usages() -> Vec<Desktop> {
    DESKTOP_TABLE.iter().map(|(code, _)| Desktop::from_code(*code)).collect()
}

fn desktop_fnv(bytes: &[u8]) -> u32 {
    let mut state: u32 = 0x811c_9dc5;
    for byte in bytes {
        state ^= u32::from(*byte);
        state = state.wrapping_mul(0x0100_0193);
    }
    state
}

#[test]
fn desktop_table_codes_resolve_to_their_usages() {
    for (code, name) in DESKTOP_TABLE {
        let usage = Desktop::from_code(code);
        assert_eq!(format!("{:?}", usage), name);
        assert_eq!(usage.to_code(), code);
    }
}

#[test]
fn desktop_every_code_resolves() {
    let mut bound = 0usize;
    for code in 0..=0xFF {
        let usage = Desktop::from_code(code);
        let listed = DESKTOP_TABLE.iter().any(|(known, _)| *known == code);
        if listed {
            assert_eq!(usage.to_code(), code);
            bound += 1;
        } else {
            assert_eq!(usage, Desktop::Undefined);
        }
    }
    assert_eq!(bound, 53);
}

#[test]
fn desktop_round_trip_for_every_usage() {
    for usage in desktop_usages() {
        assert_eq!(Desktop::from_code(usage.to_code()), usage);
    }
}

#[test]
fn desktop_fallback_is_default_with_code_zero() {
    assert_eq!(Desktop::default(), Desktop::Undefined);
    assert_eq!(Desktop::Undefined.to_code(), 0);
    assert_eq!(Desktop::from_code(0), Desktop::Undefined);
}

#[test]
fn desktop_reserved_codes_fall_back() {
    assert_eq!(Desktop::from_code(0x03), Desktop::Undefined);
    assert_eq!(Desktop::from_code(0x0A), Desktop::Undefined);
    assert_eq!(Desktop::from_code(0x2F), Desktop::Undefined);
    assert_eq!(Desktop::from_code(0x3F), Desktop::Undefined);
    assert_eq!(Desktop::from_code(0x49), Desktop::Undefined);
    assert_eq!(Desktop::from_code(0x7F), Desktop::Undefined);
    assert_eq!(Desktop::from_code(0xFF), Desktop::Undefined);
}

#[test]
fn desktop_known_assignments() {
    assert_eq!(Desktop::from_code(0x01), Desktop::Pointer);
    assert_eq!(Desktop::Pointer.to_code(), 0x01);
    assert_eq!(Desktop::from_code(0x38), Desktop::Wheel);
    assert_eq!(Desktop::Wheel.to_code(), 0x38);
    assert_eq!(Desktop::from_code(0x42), Desktop::Vz);
    assert_eq!(Desktop::Vz.to_code(), 0x42);
    assert_eq!(Desktop::from_code(0x93), Desktop::DPadLeft);
    assert_eq!(Desktop::DPadLeft.to_code(), 0x93);
}

#[test]
fn desktop_distinct_usages_have_distinct_codes() {
    let usages = desktop_usages();
    for (i, a) in usages.iter().enumerate() {
        for (j, b) in usages.iter().enumerate() {
            assert_eq!(a == b, i == j);
            assert_eq!(a.to_code() == b.to_code(), i == j);
        }
    }
}

#[test]
fn desktop_order_follows_codes() {
    let usages = desktop_usages();
    for a in usages.iter() {
        for b in usages.iter() {
            let by_code = a.to_code().cmp(&b.to_code());
            assert_eq!(a.partial_cmp(b), Some(by_code));
            assert_eq!(a.cmp(b), by_code);
            assert_eq!(a < b, a.to_code() < b.to_code());
            assert_eq!(a <= b, a.to_code() <= b.to_code());
            assert_eq!(a > b, a.to_code() > b.to_code());
            assert_eq!(a >= b, a.to_code() >= b.to_code());
        }
    }
}

#[test]
fn desktop_order_examples() {
    assert!(Desktop::Undefined < Desktop::Pointer);
    assert!(Desktop::Pointer < Desktop::DPadLeft);
    assert_eq!(Desktop::DPadLeft.cmp(&Desktop::Pointer), Ordering::Greater);
    assert_eq!(Desktop::Pointer.cmp(&Desktop::Pointer), Ordering::Equal);
    assert_eq!(Desktop::Pointer.max(Desktop::DPadLeft), Desktop::DPadLeft);
}

#[test]
fn desktop_le_bytes_of_codes() {
    assert_eq!(Desktop::Undefined.to_le_bytes(), [0x00]);
    assert_eq!(Desktop::Pointer.to_le_bytes(), [0x01]);
    assert_eq!(Desktop::DPadLeft.to_le_bytes(), [0x93]);
    for usage in desktop_usages() {
        assert_eq!(usage.to_le_bytes(), usage.to_code().to_le_bytes());
    }
}

#[test]
fn desktop_hash_exact_values() {
    assert_eq!(Desktop::Undefined.hash(), 0x050c5d1f);
    assert_eq!(Desktop::Pointer.hash(), 0x040c5b8c);
    assert_eq!(Desktop::DPadLeft.hash(), 0x960bae62);
}

#[test]
fn desktop_hash_is_fnv_of_le_bytes() {
    for usage in desktop_usages() {
        let mut hasher = hash32::FnvHasher::default();
        hasher.write(&usage.to_code().to_le_bytes());
        assert_eq!(usage.hash(), hasher.finish());
        assert_eq!(usage.hash(), desktop_fnv(&usage.to_code().to_le_bytes()));
    }
}

#[test]
fn desktop_hash_agrees_with_equality() {
    let usages = desktop_usages();
    for a in usages.iter() {
        for b in usages.iter() {
            let same = a.hash() == b.hash() && a.to_code() == b.to_code();
            assert_eq!(a == b, same);
            if a.to_code() == b.to_code() {
                assert_eq!(a.hash(), b.hash());
            }
        }
    }
}

#[test]
fn desktop_converts_through_from_and_into() {
    assert_eq!(Desktop::from(0x42), Desktop::Vz);
    assert_eq!(u8::from(Desktop::Vz), 0x42);
    let code: u8 = Desktop::Vz.into();
    assert_eq!(code, 0x42);
    let usage: Desktop = 0x03.into();
    assert_eq!(usage, Desktop::Undefined);
}

#[test]
fn desktop_usages_are_plain_copyable_values() {
    let first = Desktop::Vz;
    let second = first;
    let third = first.clone();
    assert_eq!(first, second);
    assert_eq!(first, third);
    assert_eq!(format!("{:?}", first), "Vz");
}
