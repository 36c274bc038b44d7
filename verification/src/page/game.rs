//! Game Controls usage page (0x05).

use crate::digest::{encode_u8, fnv_digest, fnv_hash, le_bytes_u8};
use core::cmp::Ordering;
use vstd::prelude::*;
use vstd::std_specs::cmp::{PartialOrdSpec, PartialOrdSpecImpl};
use vstd::std_specs::convert::FromSpecImpl;

verus! {

/// Usages of the Game Controls page. Codes are 8 bits wide; every code
/// without a usage of its own resolves to [`Game::Undefined`].
///
/// The usages are declared by ascending code, so that the derived total
/// order is the order of the codes, as the partial order is.
#[derive(Debug, Clone, Copy, PartialEq, Eq, Structural, Ord)]
pub enum Game {
    Undefined,
    Game3DController,
    PinballDevice,
    GunDevice,
    PointOfView,
    TurnRightLeft,
    PitchRightLeft,
    RollForwardBackward,
    MoveRightLeft,
    MoveForwardBackward,
    MoveUpDown,
    LeanRightLeft,
    LeanForwardBackward,
    HeightOfPOV,
    Flipper,
    SecondaryFlipper,
    Bump,
    NewGame,
    ShootBall,
    Player,
    GunBolt,
    GunClip,
    GunSelector,
    GunSingleShot,
    GunBurst,
    GunAutomatic,
    GunSafety,
    GamePadFireJump,
    GamePadTrigger,
}

impl Game {
    /// The wire code bound to a usage.
    pub open spec fn code(self) -> u8 {
        match self {
            Game::Undefined => 0x00,
            Game::Game3DController => 0x01,
            Game::PinballDevice => 0x02,
            Game::GunDevice => 0x03,
            Game::PointOfView => 0x20,
            Game::TurnRightLeft => 0x21,
            Game::PitchRightLeft => 0x22,
            Game::RollForwardBackward => 0x23,
            Game::MoveRightLeft => 0x24,
            Game::MoveForwardBackward => 0x25,
            Game::MoveUpDown => 0x26,
            Game::LeanRightLeft => 0x27,
            Game::LeanForwardBackward => 0x28,
            Game::HeightOfPOV => 0x29,
            Game::Flipper => 0x2A,
            Game::SecondaryFlipper => 0x2B,
            Game::Bump => 0x2C,
            Game::NewGame => 0x2D,
            Game::ShootBall => 0x2E,
            Game::Player => 0x2F,
            Game::GunBolt => 0x30,
            Game::GunClip => 0x31,
            Game::GunSelector => 0x32,
            Game::GunSingleShot => 0x33,
            Game::GunBurst => 0x34,
            Game::GunAutomatic => 0x35,
            Game::GunSafety => 0x36,
            Game::GamePadFireJump => 0x37,
            Game::GamePadTrigger => 0x39,
        }
    }

    /// The usage a wire code stands for: the one bound to it, or the
    /// fallback where no usage is.
    pub open spec fn resolve(code: u8) -> Game {
        if exists|usage: Game| usage.code() == code {
            choose|usage: Game| usage.code() == code
        } else {
            Game::Undefined
        }
    }

    /// True of every usage but the fallback.
    pub open spec fn is_named(self) -> bool {
        self != Game::Undefined
    }

    /// The little-endian bytes of a usage's code.
    pub open spec fn le_bytes(self) -> Seq<u8> {
        le_bytes_u8(self.code())
    }

    /// The hash of a usage: the digest of the little-endian bytes of its
    /// code, and of nothing else.
    pub open spec fn digest(self) -> u32 {
        fnv_digest(self.le_bytes())
    }

    /// Classifies a wire code: gives the usage bound to it, or the fallback
    /// for a code that is reserved or unassigned. Every code is accepted.
    pub fn from_code(code: u8) -> (usage: Game)
        ensures
            usage == Game::resolve(code),
            usage.code() == code || usage == Game::Undefined,
    {
        let usage = match code {
            0x01 => Game::Game3DController,
            0x02 => Game::PinballDevice,
            0x03 => Game::GunDevice,
            0x20 => Game::PointOfView,
            0x21 => Game::TurnRightLeft,
            0x22 => Game::PitchRightLeft,
            0x23 => Game::RollForwardBackward,
            0x24 => Game::MoveRightLeft,
            0x25 => Game::MoveForwardBackward,
            0x26 => Game::MoveUpDown,
            0x27 => Game::LeanRightLeft,
            0x28 => Game::LeanForwardBackward,
            0x29 => Game::HeightOfPOV,
            0x2A => Game::Flipper,
            0x2B => Game::SecondaryFlipper,
            0x2C => Game::Bump,
            0x2D => Game::NewGame,
            0x2E => Game::ShootBall,
            0x2F => Game::Player,
            0x30 => Game::GunBolt,
            0x31 => Game::GunClip,
            0x32 => Game::GunSelector,
            0x33 => Game::GunSingleShot,
            0x34 => Game::GunBurst,
            0x35 => Game::GunAutomatic,
            0x36 => Game::GunSafety,
            0x37 => Game::GamePadFireJump,
            0x39 => Game::GamePadTrigger,
            _ => Game::Undefined,
        };
        proof {
            if usage.code() == code {
                Game::lemma_round_trip(usage);
            } else {
                assert forall|other: Game| other.code() != code by {}
            }
        }
        usage
    }

    /// The wire code of a usage.
    pub fn to_code(self) -> (code: u8)
        ensures
            code == self.code(),
    {
        match self {
            Game::Undefined => 0x00,
            Game::Game3DController => 0x01,
            Game::PinballDevice => 0x02,
            Game::GunDevice => 0x03,
            Game::PointOfView => 0x20,
            Game::TurnRightLeft => 0x21,
            Game::PitchRightLeft => 0x22,
            Game::RollForwardBackward => 0x23,
            Game::MoveRightLeft => 0x24,
            Game::MoveForwardBackward => 0x25,
            Game::MoveUpDown => 0x26,
            Game::LeanRightLeft => 0x27,
            Game::LeanForwardBackward => 0x28,
            Game::HeightOfPOV => 0x29,
            Game::Flipper => 0x2A,
            Game::SecondaryFlipper => 0x2B,
            Game::Bump => 0x2C,
            Game::NewGame => 0x2D,
            Game::ShootBall => 0x2E,
            Game::Player => 0x2F,
            Game::GunBolt => 0x30,
            Game::GunClip => 0x31,
            Game::GunSelector => 0x32,
            Game::GunSingleShot => 0x33,
            Game::GunBurst => 0x34,
            Game::GunAutomatic => 0x35,
            Game::GunSafety => 0x36,
            Game::GamePadFireJump => 0x37,
            Game::GamePadTrigger => 0x39,
        }
    }

    /// The little-endian bytes of the usage's code, as fed to a hasher.
    pub fn to_le_bytes(self) -> (bytes: [u8; 1])
        ensures
            bytes@ == self.le_bytes(),
    {
        encode_u8(self.to_code())
    }

    /// Hashes the usage: the 32-bit Fowler-Noll-Vo digest of the
    /// little-endian bytes of its code.
    pub fn hash(&self) -> (digest: u32)
        ensures
            digest == self.digest(),
    {
        let bytes = self.to_le_bytes();
        fnv_hash(bytes.as_slice())
    }

    /// Distinct usages have distinct wire codes, the fallback included.
    pub proof fn lemma_codes_distinct(a: Game, b: Game)
        ensures
            a != b ==> a.code() != b.code(),
    {
    }

    /// A usage's own code resolves back to that usage. This holds of the
    /// fallback too, whose code is 0.
    pub proof fn lemma_round_trip(usage: Game)
        ensures
            Game::resolve(usage.code()) == usage,
    {
        let found = choose|other: Game| other.code() == usage.code();
        Game::lemma_codes_distinct(found, usage);
    }

    /// A code that no named usage is bound to resolves to the fallback.
    pub proof fn lemma_unbound_is_fallback(code: u8)
        requires
            forall|usage: Game| usage.is_named() ==> usage.code() != code,
        ensures
            Game::resolve(code) == Game::Undefined,
    {
        if exists|usage: Game| usage.code() == code {
            let found = choose|usage: Game| usage.code() == code;
            assert(!found.is_named());
        }
    }

    /// Every code resolves to the usage bound to it or to the fallback.
    pub proof fn lemma_resolve_total(code: u8)
        ensures
            Game::resolve(code).code() == code || Game::resolve(code) == Game::Undefined,
    {
    }

    /// Usages are ordered as their codes are.
    pub proof fn lemma_order_follows_code(a: Game, b: Game)
        ensures
            PartialOrdSpec::partial_cmp_spec(&a, &b) == Some(Ordering::Less) <==> a.code() < b.code(),
            PartialOrdSpec::partial_cmp_spec(&a, &b) == Some(Ordering::Equal) <==> a.code() == b.code(),
            PartialOrdSpec::partial_cmp_spec(&a, &b) == Some(Ordering::Greater) <==> a.code() > b.code(),
            PartialOrdSpec::partial_cmp_spec(&a, &b) == Some(Ordering::Equal) <==> a == b,
    {
        Game::lemma_codes_distinct(a, b);
    }

    /// Two usages are equal exactly when their hashes and their codes
    /// are: equal codes always hash alike.
    pub proof fn lemma_hash_follows_equality(a: Game, b: Game)
        ensures
            a == b <==> (a.digest() == b.digest() && a.code() == b.code()),
            a.code() == b.code() ==> a.digest() == b.digest(),
    {
        Game::lemma_codes_distinct(a, b);
    }
}

impl Default for Game {
    /// The fallback usage, for use where no code is known yet.
    fn default() -> (usage: Game)
        ensures
            usage == Game::Undefined,
    {
        Game::Undefined
    }
}

impl PartialOrd for Game {
    /// Compares two usages by their wire codes.
    fn partial_cmp(&self, other: &Game) -> (order: Option<Ordering>) {
        let left = self.to_code();
        let right = other.to_code();
        if left < right {
            Some(Ordering::Less)
        } else if left == right {
            Some(Ordering::Equal)
        } else {
            Some(Ordering::Greater)
        }
    }
}

impl PartialOrdSpecImpl for Game {
    open spec fn obeys_partial_cmp_spec() -> bool {
        true
    }

    open spec fn partial_cmp_spec(&self, other: &Game) -> Option<Ordering> {
        if self.code() < other.code() {
            Some(Ordering::Less)
        } else if self.code() == other.code() {
            Some(Ordering::Equal)
        } else {
            Some(Ordering::Greater)
        }
    }
}

impl From<u8> for Game {
    /// Classifies a wire code, as [`Game::from_code`] does.
    fn from(code: u8) -> (usage: Game) {
        Game::from_code(code)
    }
}

impl FromSpecImpl<u8> for Game {
    open spec fn obeys_from_spec() -> bool {
        true
    }

    open spec fn from_spec(code: u8) -> Game {
        Game::resolve(code)
    }
}

impl From<Game> for u8 {
    /// The wire code of a usage, as [`Game::to_code`] gives it.
    fn from(usage: Game) -> (code: u8) {
        usage.to_code()
    }
}

impl FromSpecImpl<Game> for u8 {
    open spec fn obeys_from_spec() -> bool {
        true
    }

    open spec fn from_spec(usage: Game) -> u8 {
        usage.code()
    }
}

} // verus!
