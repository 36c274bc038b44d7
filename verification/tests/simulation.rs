use usbd_hid_devices::page::Simulation;
use hash32::Hasher;
use std::cmp::Ordering;

const SIMULATION_TABLE: [(u8, &str); 53] = [
    (0x00, "Undefined"),
    (0x01, "FlightSimulationDevice"),
    (0x02, "AutomobileSimulationDevice"),
    (0x03, "TankSimulationDevice"),
    (0x04, "SpaceshipSimulationDevice"),
    (0x05, "SubmarineSimulationDevice"),
    (0x06, "SailingSimulationDevice"),
    (0x07, "MotorcycleSimulationDevice"),
    (0x08, "SportsSimulationDevice"),
    (0x09, "AirplaneSimulationDevice"),
    (0x0A, "HelicopterSimulationDevice"),
    (0x0B, "MagicCarpetSimulationDevice"),
    (0x0C, "Bicycle"),
    (0x20, "FlightControlStick"),
    (0x21, "FlightStick"),
    (0x22, "CyclicControl"),
    (0x23, "CyclicTrim"),
    (0x24, "FlightYoke"),
    (0x25, "TrackControl"),
    (0x26, "DrivingControl"),
    (0xB0, "Aileron"),
    (0xB1, "AileronTrim"),
    (0xB2, "AntiTorqueControl"),
    (0xB3, "AutoPilotEnable"),
    (0xB4, "ChaffRelease"),
    (0xB5, "CollectiveControl"),
    (0xB6, "DiveBrake"),
    (0xB7, "ElectronicCounterMeasures"),
    (0xB8, "Elevator"),
    (0xB9, "ElevatorTrim"),
    (0xBA, "Rudder"),
    (0xBB, "Throttle"),
    (0xBC, "FlightCommunication"),
    (0xBD, "FlareRelease"),
    (0xBE, "LandingGear"),
    (0xBF, "ToeBrake"),
    (0xC0, "Trigger"),
    (0xC1, "WeaponsArm"),
    (0xC2, "WeaponsSelect"),
    (0xC3, "WingFlaps"),
    (0xC4, "Accelerator"),
    (0xC5, "Brake"),
    (0xC6, "Clutch"),
    (0xC7, "Shifter"),
    (0xC8, "Steering"),
    (0xC9, "TurretDirection"),
    (0xCA, "BarrelElevation"),
    (0xCB, "DivePlane"),
    (0xCC, "Ballast"),
    (0xCD, "BicycleCrank"),
    (0xCE, "HandleBars"),
    (0xCF, "FrontBrake"),
    (0xD0, "RearBrake"),
];

fn simulation_usages() -> Vec<Simulation> {
    SIMULATION_TABLE.iter().map(|(code, _)| Simulation::from_code(*code)).collect()
}

fn simulation_fnv(bytes: &[u8]) -> u32 {
    let mut state: u32 = 0x811c_9dc5;
    for byte in bytes {
        state ^= u32::from(*byte);
        state = state.wrapping_mul(0x0100_0193);
    }
    state
}

#[test]
fn simulation_table_codes_resolve_to_their_usages() {
    for (code, name) in SIMULATION_TABLE {
        let usage = Simulation::from_code(code);
        assert_eq!(format!("{:?}", usage), name);
        assert_eq!(usage.to_code(), code);
    }
}

#[test]
fn simulation_every_code_resolves() {
    let mut bound = 0usize;
    for code in 0..=0xFF {
        let usage = Simulation::from_code(code);
        let listed = SIMULATION_TABLE.iter().any(|(known, _)| *known == code);
        if listed {
            assert_eq!(usage.to_code(), code);
            bound += 1;
        } else {
            assert_eq!(usage, Simulation::Undefined);
        }
    }
    assert_eq!(bound, 53);
}

#[test]
fn simulation_round_trip_for_every_usage() {
    for usage in simulation_usages() {
        assert_eq!(Simulation::from_code(usage.to_code()), usage);
    }
}

#[test]
fn simulation_fallback_is_default_with_code_zero() {
    assert_eq!(Simulation::default(), Simulation::Undefined);
    assert_eq!(Simulation::Undefined.to_code(), 0);
    assert_eq!(Simulation::from_code(0), Simulation::Undefined);
}

#[test]
fn simulation_reserved_codes_fall_back() {
    assert_eq!(Simulation::from_code(0x0D), Simulation::Undefined);
    assert_eq!(Simulation::from_code(0x1F), Simulation::Undefined);
    assert_eq!(Simulation::from_code(0x27), Simulation::Undefined);
    assert_eq!(Simulation::from_code(0xAF), Simulation::Undefined);
    assert_eq!(Simulation::from_code(0xD1), Simulation::Undefined);
    assert_eq!(Simulation::from_code(0xFF), Simulation::Undefined);
}

#[test]
fn simulation_known_assignments() {
    assert_eq!(Simulation::from_code(0x01), Simulation::FlightSimulationDevice);
    assert_eq!(Simulation::FlightSimulationDevice.to_code(), 0x01);
    assert_eq!(Simulation::from_code(0x24), Simulation::FlightYoke);
    assert_eq!(Simulation::FlightYoke.to_code(), 0x24);
    assert_eq!(Simulation::from_code(0xB6), Simulation::DiveBrake);
    assert_eq!(Simulation::DiveBrake.to_code(), 0xB6);
    assert_eq!(Simulation::from_code(0xD0), Simulation::RearBrake);
    assert_eq!(Simulation::RearBrake.to_code(), 0xD0);
}

#[test]
fn simulation_distinct_usages_have_distinct_codes() {
    let usages = simulation_usages();
    for (i, a) in usages.iter().enumerate() {
        for (j, b) in usages.iter().enumerate() {
            assert_eq!(a == b, i == j);
            assert_eq!(a.to_code() == b.to_code(), i == j);
        }
    }
}

#[test]
fn simulation_order_follows_codes() {
    let usages = simulation_usages();
    for a in usages.iter() {
        for b in usages.iter() {
            let by_code = a.to_code().cmp(&b.to_code());
            assert_eq!(a.partial_cmp(b), Some(by_code));
            assert_eq!(a.cmp(b), by_code);
            assert_eq!(a < b, a.to_code() < b.to_code());
            assert_eq!(a <= b, a.to_code() <= b.to_code());
            assert_eq!(a > b, a.to_code() > b.to_code());
            assert_eq!(a >= b, a.to_code() >= b.to_code());
        }
    }
}

#[test]
fn simulation_order_examples() {
    assert!(Simulation::Undefined < Simulation::FlightSimulationDevice);
    assert!(Simulation::FlightSimulationDevice < Simulation::RearBrake);
    assert_eq!(Simulation::RearBrake.cmp(&Simulation::FlightSimulationDevice), Ordering::Greater);
    assert_eq!(Simulation::FlightSimulationDevice.cmp(&Simulation::FlightSimulationDevice), Ordering::Equal);
    assert_eq!(Simulation::FlightSimulationDevice.max(Simulation::RearBrake), Simulation::RearBrake);
}

#[test]
fn simulation_le_bytes_of_codes() {
    assert_eq!(Simulation::Undefined.to_le_bytes(), [0x00]);
    assert_eq!(Simulation::FlightSimulationDevice.to_le_bytes(), [0x01]);
    assert_eq!(Simulation::RearBrake.to_le_bytes(), [0xD0]);
    for usage in simulation_usages() {
        assert_eq!(usage.to_le_bytes(), usage.to_code().to_le_bytes());
    }
}

#[test]
fn simulation_hash_exact_values() {
    assert_eq!(Simulation::Undefined.hash(), 0x050c5d1f);
    assert_eq!(Simulation::FlightSimulationDevice.hash(), 0x040c5b8c);
    assert_eq!(Simulation::RearBrake.hash(), 0x550b480f);
}

#[test]
fn simulation_hash_is_fnv_of_le_bytes() {
    for usage in simulation_usages() {
        let mut hasher = hash32::FnvHasher::default();
        hasher.write(&usage.to_code().to_le_bytes());
        assert_eq!(usage.hash(), hasher.finish());
        assert_eq!(usage.hash(), simulation_fnv(&usage.to_code().to_le_bytes()));
    }
}

#[test]
fn simulation_hash_agrees_with_equality() {
    let usages = simulation_usages();
    for a in usages.iter() {
        for b in usages.iter() {
            let same = a.hash() == b.hash() && a.to_code() == b.to_code();
            assert_eq!(a == b, same);
            if a.to_code() == b.to_code() {
                assert_eq!(a.hash(), b.hash());
            }
        }
    }
}

#[test]
fn simulation_converts_through_from_and_into() {
    assert_eq!(Simulation::from(0xB6), Simulation::DiveBrake);
    assert_eq!(u8::from(Simulation::DiveBrake), 0xB6);
    let code: u8 = Simulation::DiveBrake.into();
    assert_eq!(code, 0xB6);
    let usage: Simulation = 0x0D.into();
    assert_eq!(usage, Simulation::Undefined);
}

#[test]
fn simulation_usages_are_plain_copyable_values() {
    let first = Simulation::DiveBrake;
    let second = first;
    let third = first.clone();
    assert_eq!(first, second);
    assert_eq!(first, third);
    assert_eq!(format!("{:?}", first), "DiveBrake");
}
