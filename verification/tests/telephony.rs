use usbd_hid_devices::page::Telephony;
use hash32::Hasher;
use std::cmp::Ordering;

const TELEPHONY_TABLE: [(u8, &str); 66] = [
    (0x00, "Unassigned"),
    (0x01, "Phone"),
    (0x02, "AnsweringMachine"),
    (0x03, "MessageControls"),
    (0x04, "Handset"),
    (0x05, "Headset"),
    (0x06, "TelephonyKeyPad"),
    (0x07, "ProgrammableButton"),
    (0x20, "HookSwitch"),
    (0x21, "Flash"),
    (0x22, "Feature"),
    (0x23, "Hold"),
    (0x24, "Redial"),
    (0x25, "Transfer"),
    (0x26, "Drop"),
    (0x27, "Park"),
    (0x28, "ForwardCalls"),
    (0x29, "AlternateFunction"),
    (0x2A, "Line"),
    (0x2B, "SpeakerPhone"),
    (0x2C, "Conference"),
    (0x2D, "RingEnable"),
    (0x2E, "RingSelect"),
    (0x2F, "PhoneMute"),
    (0x30, "CallerID"),
    (0x31, "Send"),
    (0x50, "SpeedDial"),
    (0x51, "StoreNumber"),
    (0x52, "RecallNumber"),
    (0x53, "PhoneDirectory"),
    (0x70, "VoiceMail"),
    (0x71, "ScreenCalls"),
    (0x72, "DoNotDisturb"),
    (0x73, "Message"),
    (0x74, "AnswerOnOff"),
    (0x90, "InsideDialTone"),
    (0x91, "OutsideDialTone"),
    (0x92, "InsideRingTone"),
    (0x93, "OutsideRingTone"),
    (0x94, "PriorityRingTone"),
    (0x95, "InsideRingback"),
    (0x96, "PriorityRingback"),
    (0x97, "LineBusyTone"),
    (0x98, "ReorderTone"),
    (0x99, "CallWaitingTone"),
    (0x9A, "ConfirmationTone1"),
    (0x9B, "ConfirmationTone2"),
    (0x9C, "TonesOff"),
    (0x9D, "OutsideRingback"),
    (0x9E, "Ringer"),
    (0xB0, "PhoneKey0"),
    (0xB1, "PhoneKey1"),
    (0xB2, "PhoneKey2"),
    (0xB3, "PhoneKey3"),
    (0xB4, "PhoneKey4"),
    (0xB5, "PhoneKey5"),
    (0xB6, "PhoneKey6"),
    (0xB7, "PhoneKey7"),
    (0xB8, "PhoneKey8"),
    (0xB9, "PhoneKey9"),
    (0xBA, "PhoneKeyStar"),
    (0xBB, "PhoneKeyPound"),
    (0xBC, "PhoneKeyA"),
    (0xBD, "PhoneKeyB"),
    (0xBE, "PhoneKeyC"),
    (0xBF, "PhoneKeyD"),
];

fn telephony_usages() -> Vec<Telephony> {
    TELEPHONY_TABLE.iter().map(|(code, _)| Telephony::from_code(*code)).collect()
}

fn telephony_fnv(bytes: &[u8]) -> u32 {
    let mut state: u32 = 0x811c_9dc5;
    for byte in bytes {
        state ^= u32::from(*byte);
        state = state.wrapping_mul(0x0100_0193);
    }
    state
}

#[test]
fn telephony_table_codes_resolve_to_their_usages() {
    for (code, name) in TELEPHONY_TABLE {
        let usage = Telephony::from_code(code);
        assert_eq!(format!("{:?}", usage), name);
        assert_eq!(usage.to_code(), code);
    }
}

#[test]
fn telephony_every_code_resolves() {
    let mut bound = 0usize;
    for code in 0..=0xFF {
        let usage = Telephony::from_code(code);
        let listed = TELEPHONY_TABLE.iter().any(|(known, _)| *known == code);
        if listed {
            assert_eq!(usage.to_code(), code);
            bound += 1;
        } else {
            assert_eq!(usage, Telephony::Unassigned);
        }
    }
    assert_eq!(bound, 66);
}

#[test]
fn telephony_round_trip_for_every_usage() {
    for usage in telephony_usages() {
        assert_eq!(Telephony::from_code(usage.to_code()), usage);
    }
}

#[test]
fn telephony_fallback_is_default_with_code_zero() {
    assert_eq!(Telephony::default(), Telephony::Unassigned);
    assert_eq!(Telephony::Unassigned.to_code(), 0);
    assert_eq!(Telephony::from_code(0), Telephony::Unassigned);
}

#[test]
fn telephony_reserved_codes_fall_back() {
    assert_eq!(Telephony::from_code(0x08), Telephony::Unassigned);
    assert_eq!(Telephony::from_code(0x1F), Telephony::Unassigned);
    assert_eq!(Telephony::from_code(0x32), Telephony::Unassigned);
    assert_eq!(Telephony::from_code(0x4F), Telephony::Unassigned);
    assert_eq!(Telephony::from_code(0x54), Telephony::Unassigned);
    assert_eq!(Telephony::from_code(0x6F), Telephony::Unassigned);
    assert_eq!(Telephony::from_code(0xFF), Telephony::Unassigned);
}

#[test]
fn telephony_known_assignments() {
    assert_eq!(Telephony::from_code(0x01), Telephony::Phone);
    assert_eq!(Telephony::Phone.to_code(), 0x01);
    assert_eq!(Telephony::from_code(0x2E), Telephony::RingSelect);
    assert_eq!(Telephony::RingSelect.to_code(), 0x2E);
    assert_eq!(Telephony::from_code(0x73), Telephony::Message);
    assert_eq!(Telephony::Message.to_code(), 0x73);
    assert_eq!(Telephony::from_code(0xBF), Telephony::PhoneKeyD);
    assert_eq!(Telephony::PhoneKeyD.to_code(), 0xBF);
}

#[test]
fn telephony_distinct_usages_have_distinct_codes() {
    let usages = telephony_usages();
    for (i, a) in usages.iter().enumerate() {
        for (j, b) in usages.iter().enumerate() {
            assert_eq!(a == b, i == j);
            assert_eq!(a.to_code() == b.to_code(), i == j);
        }
    }
}

#[test]
fn telephony_order_follows_codes() {
    let usages = telephony_usages();
    for a in usages.iter() {
        for b in usages.iter() {
            let by_code = a.to_code().cmp(&b.to_code());
            assert_eq!(a.partial_cmp(b), Some(by_code));
            assert_eq!(a.cmp(b), by_code);
            assert_eq!(a < b, a.to_code() < b.to_code());
            assert_eq!(a <= b, a.to_code() <= b.to_code());
            assert_eq!(a > b, a.to_code() > b.to_code());
            assert_eq!(a >= b, a.to_code() >= b.to_code());
        }
    }
}

#[test]
fn telephony_order_examples() {
    assert!(Telephony::Unassigned < Telephony::Phone);
    assert!(Telephony::Phone < Telephony::PhoneKeyD);
    assert_eq!(Telephony::PhoneKeyD.cmp(&Telephony::Phone), Ordering::Greater);
    assert_eq!(Telephony::Phone.cmp(&Telephony::Phone), Ordering::Equal);
    assert_eq!(Telephony::Phone.max(Telephony::PhoneKeyD), Telephony::PhoneKeyD);
}

#[test]
fn telephony_le_bytes_of_codes() {
    assert_eq!(Telephony::Unassigned.to_le_bytes(), [0x00]);
    assert_eq!(Telephony::Phone.to_le_bytes(), [0x01]);
    assert_eq!(Telephony::PhoneKeyD.to_le_bytes(), [0xBF]);
    for usage in telephony_usages() {
        assert_eq!(usage.to_le_bytes(), usage.to_code().to_le_bytes());
    }
}

#[test]
fn telephony_hash_exact_values() {
    assert_eq!(Telephony::Unassigned.hash(), 0x050c5d1f);
    assert_eq!(Telephony::Phone.hash(), 0x040c5b8c);
    assert_eq!(Telephony::PhoneKeyD.hash(), 0xba0be70e);
}

#[test]
fn telephony_hash_is_fnv_of_le_bytes() {
    for usage in telephony_usages() {
        let mut hasher = hash32::FnvHasher::default();
        hasher.write(&usage.to_code().to_le_bytes());
        assert_eq!(usage.hash(), hasher.finish());
        assert_eq!(usage.hash(), telephony_fnv(&usage.to_code().to_le_bytes()));
    }
}

#[test]
fn telephony_hash_agrees_with_equality() {
    let usages = telephony_usages();
    for a in usages.iter() {
        for b in usages.iter() {
            let same = a.hash() == b.hash() && a.to_code() == b.to_code();
            assert_eq!(a == b, same);
            if a.to_code() == b.to_code() {
                assert_eq!(a.hash(), b.hash());
            }
        }
    }
}

#[test]
fn telephony_converts_through_from_and_into() {
    assert_eq!(Telephony::from(0x73), Telephony::Message);
    assert_eq!(u8::from(Telephony::Message), 0x73);
    let code: u8 = Telephony::Message.into();
    assert_eq!(code, 0x73);
    let usage: Telephony = 0x08.into();
    assert_eq!(usage, Telephony::Unassigned);
}

#[test]
fn telephony_usages_are_plain_copyable_values() {
    let first = Telephony::Message;
    let second = first;
    let third = first.clone();
    assert_eq!(first, second);
    assert_eq!(first, third);
    assert_eq!(format!("{:?}", first), "Message");
}
