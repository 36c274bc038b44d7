//! Simulation Controls usage page (0x02).

use crate::digest::{encode_u8, fnv_digest, fnv_hash, le_bytes_u8};
use core::cmp::Ordering;
use vstd::prelude::*;
use vstd::std_specs::cmp::{PartialOrdSpec, PartialOrdSpecImpl};
use vstd::std_specs::convert::FromSpecImpl;

verus! {

/// Usages of the Simulation Controls page. Codes are 8 bits wide; every code
/// without a usage of its own resolves to [`Simulation::Undefined`].
///
/// The usages are declared by ascending code, so that the derived total
/// order is the order of the codes, as the partial order is.
#[derive(Debug, Clone, Copy, PartialEq, Eq, Structural, Ord)]
pub enum Simulation {
    Undefined,
    FlightSimulationDevice,
    AutomobileSimulationDevice,
    TankSimulationDevice,
    SpaceshipSimulationDevice,
    SubmarineSimulationDevice,
    SailingSimulationDevice,
    MotorcycleSimulationDevice,
    SportsSimulationDevice,
    AirplaneSimulationDevice,
    HelicopterSimulationDevice,
    MagicCarpetSimulationDevice,
    Bicycle,
    FlightControlStick,
    FlightStick,
    CyclicControl,
    CyclicTrim,
    FlightYoke,
    TrackControl,
    DrivingControl,
    Aileron,
    AileronTrim,
    AntiTorqueControl,
    AutoPilotEnable,
    ChaffRelease,
    CollectiveControl,
    DiveBrake,
    ElectronicCounterMeasures,
    Elevator,
    ElevatorTrim,
    Rudder,
    Throttle,
    FlightCommunication,
    FlareRelease,
    LandingGear,
    ToeBrake,
    Trigger,
    WeaponsArm,
    WeaponsSelect,
    WingFlaps,
    Accelerator,
    Brake,
    Clutch,
    Shifter,
    Steering,
    TurretDirection,
    BarrelElevation,
    DivePlane,
    Ballast,
    BicycleCrank,
    HandleBars,
    FrontBrake,
    RearBrake,
}

impl Simulation {
    /// The wire code bound to a usage.
    pub open spec fn code(self) -> u8 {
        match self {
            Simulation::Undefined => 0x00,
            Simulation::FlightSimulationDevice => 0x01,
            Simulation::AutomobileSimulationDevice => 0x02,
            Simulation::TankSimulationDevice => 0x03,
            Simulation::SpaceshipSimulationDevice => 0x04,
            Simulation::SubmarineSimulationDevice => 0x05,
            Simulation::SailingSimulationDevice => 0x06,
            Simulation::MotorcycleSimulationDevice => 0x07,
            Simulation::SportsSimulationDevice => 0x08,
            Simulation::AirplaneSimulationDevice => 0x09,
            Simulation::HelicopterSimulationDevice => 0x0A,
            Simulation::MagicCarpetSimulationDevice => 0x0B,
            Simulation::Bicycle => 0x0C,
            Simulation::FlightControlStick => 0x20,
            Simulation::FlightStick => 0x21,
            Simulation::CyclicControl => 0x22,
            Simulation::CyclicTrim => 0x23,
            Simulation::FlightYoke => 0x24,
            Simulation::TrackControl => 0x25,
            Simulation::DrivingControl => 0x26,
            Simulation::Aileron => 0xB0,
            Simulation::AileronTrim => 0xB1,
            Simulation::AntiTorqueControl => 0xB2,
            Simulation::AutoPilotEnable => 0xB3,
            Simulation::ChaffRelease => 0xB4,
            Simulation::CollectiveControl => 0xB5,
            Simulation::DiveBrake => 0xB6,
            Simulation::ElectronicCounterMeasures => 0xB7,
            Simulation::Elevator => 0xB8,
            Simulation::ElevatorTrim => 0xB9,
            Simulation::Rudder => 0xBA,
            Simulation::Throttle => 0xBB,
            Simulation::FlightCommunication => 0xBC,
            Simulation::FlareRelease => 0xBD,
            Simulation::LandingGear => 0xBE,
            Simulation::ToeBrake => 0xBF,
            Simulation::Trigger => 0xC0,
            Simulation::WeaponsArm => 0xC1,
            Simulation::WeaponsSelect => 0xC2,
            Simulation::WingFlaps => 0xC3,
            Simulation::Accelerator => 0xC4,
            Simulation::Brake => 0xC5,
            Simulation::Clutch => 0xC6,
            Simulation::Shifter => 0xC7,
            Simulation::Steering => 0xC8,
            Simulation::TurretDirection => 0xC9,
            Simulation::BarrelElevation => 0xCA,
            Simulation::DivePlane => 0xCB,
            Simulation::Ballast => 0xCC,
            Simulation::BicycleCrank => 0xCD,
            Simulation::HandleBars => 0xCE,
            Simulation::FrontBrake => 0xCF,
            Simulation::RearBrake => 0xD0,
        }
    }

    /// The usage a wire code stands for: the one bound to it, or the
    /// fallback where no usage is.
    pub open spec fn resolve(code: u8) -> Simulation {
        if exists|usage: Simulation| usage.code() == code {
            choose|usage: Simulation| usage.code() == code
        } else {
            Simulation::Undefined
        }
    }

    /// True of every usage but the fallback.
    pub open spec fn is_named(self) -> bool {
        self != Simulation::Undefined
    }

    /// The little-endian bytes of a usage's code.
    pub open spec fn le_bytes(self) -> Seq<u8> {
        le_bytes_u8(self.code())
    }

    /// The hash of a usage: the digest of the little-endian bytes of its
    /// code, and of nothing else.
    pub open spec fn digest(self) -> u32 {
        fnv_digest(self.le_bytes())
    }

    /// Classifies a wire code: gives the usage bound to it, or the fallback
    /// for a code that is reserved or unassigned. Every code is accepted.
    pub fn from_code(code: u8) -> (usage: Simulation)
        ensures
            usage == Simulation::resolve(code),
            usage.code() == code || usage == Simulation::Undefined,
    {
        let usage = match code {
            0x01 => Simulation::FlightSimulationDevice,
            0x02 => Simulation::AutomobileSimulationDevice,
            0x03 => Simulation::TankSimulationDevice,
            0x04 => Simulation::SpaceshipSimulationDevice,
            0x05 => Simulation::SubmarineSimulationDevice,
            0x06 => Simulation::SailingSimulationDevice,
            0x07 => Simulation::MotorcycleSimulationDevice,
            0x08 => Simulation::SportsSimulationDevice,
            0x09 => Simulation::AirplaneSimulationDevice,
            0x0A => Simulation::HelicopterSimulationDevice,
            0x0B => Simulation::MagicCarpetSimulationDevice,
            0x0C => Simulation::Bicycle,
            0x20 => Simulation::FlightControlStick,
            0x21 => Simulation::FlightStick,
            0x22 => Simulation::CyclicControl,
            0x23 => Simulation::CyclicTrim,
            0x24 => Simulation::FlightYoke,
            0x25 => Simulation::TrackControl,
            0x26 => Simulation::DrivingControl,
            0xB0 => Simulation::Aileron,
            0xB1 => Simulation::AileronTrim,
            0xB2 => Simulation::AntiTorqueControl,
            0xB3 => Simulation::AutoPilotEnable,
            0xB4 => Simulation::ChaffRelease,
            0xB5 => Simulation::CollectiveControl,
            0xB6 => Simulation::DiveBrake,
            0xB7 => Simulation::ElectronicCounterMeasures,
            0xB8 => Simulation::Elevator,
            0xB9 => Simulation::ElevatorTrim,
            0xBA => Simulation::Rudder,
            0xBB => Simulation::Throttle,
            0xBC => Simulation::FlightCommunication,
            0xBD => Simulation::FlareRelease,
            0xBE => Simulation::LandingGear,
            0xBF => Simulation::ToeBrake,
            0xC0 => Simulation::Trigger,
            0xC1 => Simulation::WeaponsArm,
            0xC2 => Simulation::WeaponsSelect,
            0xC3 => Simulation::WingFlaps,
            0xC4 => Simulation::Accelerator,
            0xC5 => Simulation::Brake,
            0xC6 => Simulation::Clutch,
            0xC7 => Simulation::Shifter,
            0xC8 => Simulation::Steering,
            0xC9 => Simulation::TurretDirection,
            0xCA => Simulation::BarrelElevation,
            0xCB => Simulation::DivePlane,
            0xCC => Simulation::Ballast,
            0xCD => Simulation::BicycleCrank,
            0xCE => Simulation::HandleBars,
            0xCF => Simulation::FrontBrake,
            0xD0 => Simulation::RearBrake,
            _ => Simulation::Undefined,
        };
        proof {
            if usage.code() == code {
                Simulation::lemma_round_trip(usage);
            } else {
                assert forall|other: Simulation| other.code() != code by {}
            }
        }
        usage
    }

    /// The wire code of a usage.
    pub fn to_code(self) -> (code: u8)
        ensures
            code == self.code(),
    {
        match self {
            Simulation::Undefined => 0x00,
            Simulation::FlightSimulationDevice => 0x01,
            Simulation::AutomobileSimulationDevice => 0x02,
            Simulation::TankSimulationDevice => 0x03,
            Simulation::SpaceshipSimulationDevice => 0x04,
            Simulation::SubmarineSimulationDevice => 0x05,
            Simulation::SailingSimulationDevice => 0x06,
            Simulation::MotorcycleSimulationDevice => 0x07,
            Simulation::SportsSimulationDevice => 0x08,
            Simulation::AirplaneSimulationDevice => 0x09,
            Simulation::HelicopterSimulationDevice => 0x0A,
            Simulation::MagicCarpetSimulationDevice => 0x0B,
            Simulation::Bicycle => 0x0C,
            Simulation::FlightControlStick => 0x20,
            Simulation::FlightStick => 0x21,
            Simulation::CyclicControl => 0x22,
            Simulation::CyclicTrim => 0x23,
            Simulation::FlightYoke => 0x24,
            Simulation::TrackControl => 0x25,
            Simulation::DrivingControl => 0x26,
            Simulation::Aileron => 0xB0,
            Simulation::AileronTrim => 0xB1,
            Simulation::AntiTorqueControl => 0xB2,
            Simulation::AutoPilotEnable => 0xB3,
            Simulation::ChaffRelease => 0xB4,
            Simulation::CollectiveControl => 0xB5,
            Simulation::DiveBrake => 0xB6,
            Simulation::ElectronicCounterMeasures => 0xB7,
            Simulation::Elevator => 0xB8,
            Simulation::ElevatorTrim => 0xB9,
            Simulation::Rudder => 0xBA,
            Simulation::Throttle => 0xBB,
            Simulation::FlightCommunication => 0xBC,
            Simulation::FlareRelease => 0xBD,
            Simulation::LandingGear => 0xBE,
            Simulation::ToeBrake => 0xBF,
            Simulation::Trigger => 0xC0,
            Simulation::WeaponsArm => 0xC1,
            Simulation::WeaponsSelect => 0xC2,
            Simulation::WingFlaps => 0xC3,
            Simulation::Accelerator => 0xC4,
            Simulation::Brake => 0xC5,
            Simulation::Clutch => 0xC6,
            Simulation::Shifter => 0xC7,
            Simulation::Steering => 0xC8,
            Simulation::TurretDirection => 0xC9,
            Simulation::BarrelElevation => 0xCA,
            Simulation::DivePlane => 0xCB,
            Simulation::Ballast => 0xCC,
            Simulation::BicycleCrank => 0xCD,
            Simulation::HandleBars => 0xCE,
            Simulation::FrontBrake => 0xCF,
            Simulation::RearBrake => 0xD0,
        }
    }

    /// The little-endian bytes of the usage's code, as fed to a hasher.
    pub fn to_le_bytes(self) -> (bytes: [u8; 1])
        ensures
            bytes@ == self.le_bytes(),
    {
        encode_u8(self.to_code())
    }

    /// Hashes the usage: the 32-bit Fowler-Noll-Vo digest of the
    /// little-endian bytes of its code.
    pub fn hash(&self) -> (digest: u32)
        ensures
            digest == self.digest(),
    {
        let bytes = self.to_le_bytes();
        fnv_hash(bytes.as_slice())
    }

    /// Distinct usages have distinct wire codes, the fallback included.
    pub proof fn lemma_codes_distinct(a: Simulation, b: Simulation)
        ensures
            a != b ==> a.code() != b.code(),
    {
    }

    /// A usage's own code resolves back to that usage. This holds of the
    /// fallback too, whose code is 0.
    pub proof fn lemma_round_trip(usage: Simulation)
        ensures
            Simulation::resolve(usage.code()) == usage,
    {
        let found = choose|other: Simulation| other.code() == usage.code();
        Simulation::lemma_codes_distinct(found, usage);
    }

    /// A code that no named usage is bound to resolves to the fallback.
    pub proof fn lemma_unbound_is_fallback(code: u8)
        requires
            forall|usage: Simulation| usage.is_named() ==> usage.code() != code,
        ensures
            Simulation::resolve(code) == Simulation::Undefined,
    {
        if exists|usage: Simulation| usage.code() == code {
            let found = choose|usage: Simulation| usage.code() == code;
            assert(!found.is_named());
        }
    }

    /// Every code resolves to the usage bound to it or to the fallback.
    pub proof fn lemma_resolve_total(code: u8)
        ensures
            Simulation::resolve(code).code() == code || Simulation::resolve(code) == Simulation::Undefined,
    {
    }

    /// Usages are ordered as their codes are.
    pub proof fn lemma_order_follows_code(a: Simulation, b: Simulation)
        ensures
            PartialOrdSpec::partial_cmp_spec(&a, &b) == Some(Ordering::Less) <==> a.code() < b.code(),
            PartialOrdSpec::partial_cmp_spec(&a, &b) == Some(Ordering::Equal) <==> a.code() == b.code(),
            PartialOrdSpec::partial_cmp_spec(&a, &b) == Some(Ordering::Greater) <==> a.code() > b.code(),
            PartialOrdSpec::partial_cmp_spec(&a, &b) == Some(Ordering::Equal) <==> a == b,
    {
        Simulation::lemma_codes_distinct(a, b);
    }

    /// Two usages are equal exactly when their hashes and their codes
    /// are: equal codes always hash alike.
    pub proof fn lemma_hash_follows_equality(a: Simulation, b: Simulation)
        ensures
            a == b <==> (a.digest() == b.digest() && a.code() == b.code()),
            a.code() == b.code() ==> a.digest() == b.digest(),
    {
        Simulation::lemma_codes_distinct(a, b);
    }
}

impl Default for Simulation {
    /// The fallback usage, for use where no code is known yet.
    fn default() -> (usage: Simulation)
        ensures
            usage == Simulation::Undefined,
    {
        Simulation::Undefined
    }
}

impl PartialOrd for Simulation {
    /// Compares two usages by their wire codes.
    fn partial_cmp(&self, other: &Simulation) -> (order: Option<Ordering>) {
        let left = self.to_code();
        let right = other.to_code();
        if left < right {
            Some(Ordering::Less)
        } else if left == right {
            Some(Ordering::Equal)
        } else {
            Some(Ordering::Greater)
        }
    }
}

impl PartialOrdSpecImpl for Simulation {
    open spec fn obeys_partial_cmp_spec() -> bool {
        true
    }

    open spec fn partial_cmp_spec(&self, other: &Simulation) -> Option<Ordering> {
        if self.code() < other.code() {
            Some(Ordering::Less)
        } else if self.code() == other.code() {
            Some(Ordering::Equal)
        } else {
            Some(Ordering::Greater)
        }
    }
}

impl From<u8> for Simulation {
    /// Classifies a wire code, as [`Simulation::from_code`] does.
    fn from(code: u8) -> (usage: Simulation) {
        Simulation::from_code(code)
    }
}

impl FromSpecImpl<u8> for Simulation {
    open spec fn obeys_from_spec() -> bool {
        true
    }

    open spec fn from_spec(code: u8) -> Simulation {
        Simulation::resolve(code)
    }
}

impl From<Simulation> for u8 {
    /// The wire code of a usage, as [`Simulation::to_code`] gives it.
    fn from(usage: Simulation) -> (code: u8) {
        usage.to_code()
    }
}

impl FromSpecImpl<Simulation> for u8 {
    open spec fn obeys_from_spec() -> bool {
        true
    }

    open spec fn from_spec(usage: Simulation) -> u8 {
        usage.code()
    }
}

} // verus!
