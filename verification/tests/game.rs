use usbd_hid_devices::page::Game;
use hash32::Hasher;
use std::cmp::Ordering;

const GAME_TABLE: [(u8, &str); 29] = [
    (0x00, "Undefined"),
    (0x01, "Game3DController"),
    (0x02, "PinballDevice"),
    (0x03, "GunDevice"),
    (0x20, "PointOfView"),
    (0x21, "TurnRightLeft"),
    (0x22, "PitchRightLeft"),
    (0x23, "RollForwardBackward"),
    (0x24, "MoveRightLeft"),
    (0x25, "MoveForwardBackward"),
    (0x26, "MoveUpDown"),
    (0x27, "LeanRightLeft"),
    (0x28, "LeanForwardBackward"),
    (0x29, "HeightOfPOV"),
    (0x2A, "Flipper"),
    (0x2B, "SecondaryFlipper"),
    (0x2C, "Bump"),
    (0x2D, "NewGame"),
    (0x2E, "ShootBall"),
    (0x2F, "Player"),
    (0x30, "GunBolt"),
    (0x31, "GunClip"),
    (0x32, "GunSelector"),
    (0x33, "GunSingleShot"),
    (0x34, "GunBurst"),
    (0x35, "GunAutomatic"),
    (0x36, "GunSafety"),
    (0x37, "GamePadFireJump"),
    (0x39, "GamePadTrigger"),
];

fn game_usages() -> Vec<Game> {
    GAME_TABLE.iter().map(|(code, _)| Game::from_code(*code)).collect()
}

fn game_fnv(bytes: &[u8]) -> u32 {
    let mut state: u32 = 0x811c_9dc5;
    for byte in bytes {
        state ^= u32::from(*byte);
        state = state.wrapping_mul(0x0100_0193);
    }
    state
}

#[test]
fn game_table_codes_resolve_to_their_usages() {
    for (code, name) in GAME_TABLE {
        let usage = Game::from_code(code);
        assert_eq!(format!("{:?}", usage), name);
        assert_eq!(usage.to_code(), code);
    }
}

#[test]
fn game_every_code_resolves() {
    let mut bound = 0usize;
    for code in 0..=0xFF {
        let usage = Game::from_code(code);
        let listed = GAME_TABLE.iter().any(|(known, _)| *known == code);
        if listed {
            assert_eq!(usage.to_code(), code);
            bound += 1;
        } else {
            assert_eq!(usage, Game::Undefined);
        }
    }
    assert_eq!(bound, 29);
}

#[test]
fn game_round_trip_for_every_usage() {
    for usage in game_usages() {
        assert_eq!(Game::from_code(usage.to_code()), usage);
    }
}

#[test]
fn game_fallback_is_default_with_code_zero() {
    assert_eq!(Game::default(), Game::Undefined);
    assert_eq!(Game::Undefined.to_code(), 0);
    assert_eq!(Game::from_code(0), Game::Undefined);
}

#[test]
fn game_reserved_codes_fall_back() {
    assert_eq!(Game::from_code(0x04), Game::Undefined);
    assert_eq!(Game::from_code(0x1F), Game::Undefined);
    assert_eq!(Game::from_code(0x38), Game::Undefined);
    assert_eq!(Game::from_code(0x3A), Game::Undefined);
    assert_eq!(Game::from_code(0xFF), Game::Undefined);
}

#[test]
fn game_known_assignments() {
    assert_eq!(Game::from_code(0x01), Game::Game3DController);
    assert_eq!(Game::Game3DController.to_code(), 0x01);
    assert_eq!(Game::from_code(0x25), Game::MoveForwardBackward);
    assert_eq!(Game::MoveForwardBackward.to_code(), 0x25);
    assert_eq!(Game::from_code(0x2A), Game::Flipper);
    assert_eq!(Game::Flipper.to_code(), 0x2A);
    assert_eq!(Game::from_code(0x39), Game::GamePadTrigger);
    assert_eq!(Game::GamePadTrigger.to_code(), 0x39);
}

#[test]
fn game_distinct_usages_have_distinct_codes() {
    let usages = game_usages();
    for (i, a) in usages.iter().enumerate() {
        for (j, b) in usages.iter().enumerate() {
            assert_eq!(a == b, i == j);
            assert_eq!(a.to_code() == b.to_code(), i == j);
        }
    }
}

#[test]
fn game_order_follows_codes() {
    let usages = game_usages();
    for a in usages.iter() {
        for b in usages.iter() {
            let by_code = a.to_code().cmp(&b.to_code());
            assert_eq!(a.partial_cmp(b), Some(by_code));
            assert_eq!(a.cmp(b), by_code);
            assert_eq!(a < b, a.to_code() < b.to_code());
            assert_eq!(a <= b, a.to_code() <= b.to_code());
            assert_eq!(a > b, a.to_code() > b.to_code());
            assert_eq!(a >= b, a.to_code() >= b.to_code());
        }
    }
}

#[test]
fn game_order_examples() {
    assert!(Game::Undefined < Game::Game3DController);
    assert!(Game::Game3DController < Game::GamePadTrigger);
    assert_eq!(Game::GamePadTrigger.cmp(&Game::Game3DController), Ordering::Greater);
    assert_eq!(Game::Game3DController.cmp(&Game::Game3DController), Ordering::Equal);
    assert_eq!(Game::Game3DController.max(Game::GamePadTrigger), Game::GamePadTrigger);
}

#[test]
fn game_le_bytes_of_codes() {
    assert_eq!(Game::Undefined.to_le_bytes(), [0x00]);
    assert_eq!(Game::Game3DController.to_le_bytes(), [0x01]);
    assert_eq!(Game::GamePadTrigger.to_le_bytes(), [0x39]);
    for usage in game_usages() {
        assert_eq!(usage.to_le_bytes(), usage.to_code().to_le_bytes());
    }
}

#[test]
fn game_hash_exact_values() {
    assert_eq!(Game::Undefined.hash(), 0x050c5d1f);
    assert_eq!(Game::Game3DController.hash(), 0x040c5b8c);
    assert_eq!(Game::GamePadTrigger.hash(), 0x3c0cb3b4);
}

#[test]
fn game_hash_is_fnv_of_le_bytes() {
    for usage in game_usages() {
        let mut hasher = hash32::FnvHasher::default();
        hasher.write(&usage.to_code().to_le_bytes());
        assert_eq!(usage.hash(), hasher.finish());
        assert_eq!(usage.hash(), game_fnv(&usage.to_code().to_le_bytes()));
    }
}

#[test]
fn game_hash_agrees_with_equality() {
    let usages = game_usages();
    for a in usages.iter() {
        for b in usages.iter() {
            let same = a.hash() == b.hash() && a.to_code() == b.to_code();
            assert_eq!(a == b, same);
            if a.to_code() == b.to_code() {
                assert_eq!(a.hash(), b.hash());
            }
        }
    }
}

#[test]
fn game_converts_through_from_and_into() {
    assert_eq!(Game::from(0x2A), Game::Flipper);
    assert_eq!(u8::from(Game::Flipper), 0x2A);
    let code: u8 = Game::Flipper.into();
    assert_eq!(code, 0x2A);
    let usage: Game = 0x04.into();
    assert_eq!(usage, Game::Undefined);
}

#[test]
fn game_usages_are_plain_copyable_values() {
    let first = Game::Flipper;
    let second = first;
    let third = first.clone();
    assert_eq!(first, second);
    assert_eq!(first, third);
    assert_eq!(format!("{:?}", first), "Flipper");
}
