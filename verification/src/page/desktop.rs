//! Generic Desktop usage page (0x01).

use crate::digest::{encode_u8, fnv_digest, fnv_hash, le_bytes_u8};
use core::cmp::Ordering;
use vstd::prelude::*;
use vstd::std_specs::cmp::{PartialOrdSpec, PartialOrdSpecImpl};
use vstd::std_specs::convert::FromSpecImpl;

verus! {

/// Usages of the Generic Desktop page. Codes are 8 bits wide; every code
/// without a usage of its own resolves to [`Desktop::Undefined`].
///
/// The usages are declared by ascending code, so that the derived total
/// order is the order of the codes, as the partial order is.
#[derive(Debug, Clone, Copy, PartialEq, Eq, Structural, Ord)]
pub enum Desktop {
    Undefined,
    Pointer,
    Mouse,
    Joystick,
    GamePad,
    Keyboard,
    Keypad,
    MultiAxisController,
    TabletPcSystemControls,
    X,
    Y,
    Z,
    Rx,
    Ry,
    Rz,
    Slider,
    Dial,
    Wheel,
    HatSwitch,
    CountedBuffer,
    ByteCount,
    MotionWakeup,
    Start,
    Select,
    Vx,
    Vy,
    Vz,
    Vbrx,
    Vbry,
    Vbrz,
    Vno,
    FeatureNotification,
    ResolutionMultiplier,
    SystemControl,
    SystemPowerDown,
    SystemSleep,
    SystemWakeUp,
    SystemContextMenu,
    SystemMainMenu,
    SystemAppMenu,
    SystemHelpMenu,
    SystemMenuExit,
    SystemMenuSelect,
    SystemMenuRight,
    SystemMenuLeft,
    SystemMenuUp,
    SystemMenuDown,
    SystemColdRestart,
    SystemWarmRestart,
    DPadUp,
    DPadDown,
    DPadRight,
    DPadLeft,
}

impl Desktop {
    /// The wire code bound to a usage.
    pub open spec fn code(self) -> u8 {
        match self {
            Desktop::Undefined => 0x00,
            Desktop::Pointer => 0x01,
            Desktop::Mouse => 0x02,
            Desktop::Joystick => 0x04,
            Desktop::GamePad => 0x05,
            Desktop::Keyboard => 0x06,
            Desktop::Keypad => 0x07,
            Desktop::MultiAxisController => 0x08,
            Desktop::TabletPcSystemControls => 0x09,
            Desktop::X => 0x30,
            Desktop::Y => 0x31,
            Desktop::Z => 0x32,
            Desktop::Rx => 0x33,
            Desktop::Ry => 0x34,
            Desktop::Rz => 0x35,
            Desktop::Slider => 0x36,
            Desktop::Dial => 0x37,
            Desktop::Wheel => 0x38,
            Desktop::HatSwitch => 0x39,
            Desktop::CountedBuffer => 0x3A,
            Desktop::ByteCount => 0x3B,
            Desktop::MotionWakeup => 0x3C,
            Desktop::Start => 0x3D,
            Desktop::Select => 0x3E,
            Desktop::Vx => 0x40,
            Desktop::Vy => 0x41,
            Desktop::Vz => 0x42,
            Desktop::Vbrx => 0x43,
            Desktop::Vbry => 0x44,
            Desktop::Vbrz => 0x45,
            Desktop::Vno => 0x46,
            Desktop::FeatureNotification => 0x47,
            Desktop::ResolutionMultiplier => 0x48,
            Desktop::SystemControl => 0x80,
            Desktop::SystemPowerDown => 0x81,
            Desktop::SystemSleep => 0x82,
            Desktop::SystemWakeUp => 0x83,
            Desktop::SystemContextMenu => 0x84,
            Desktop::SystemMainMenu => 0x85,
            Desktop::SystemAppMenu => 0x86,
            Desktop::SystemHelpMenu => 0x87,
            Desktop::SystemMenuExit => 0x88,
            Desktop::SystemMenuSelect => 0x89,
            Desktop::SystemMenuRight => 0x8A,
            Desktop::SystemMenuLeft => 0x8B,
            Desktop::SystemMenuUp => 0x8C,
            Desktop::SystemMenuDown => 0x8D,
            Desktop::SystemColdRestart => 0x8E,
            Desktop::SystemWarmRestart => 0x8F,
            Desktop::DPadUp => 0x90,
            Desktop::DPadDown => 0x91,
            Desktop::DPadRight => 0x92,
            Desktop::DPadLeft => 0x93,
        }
    }

    /// The usage a wire code stands for: the one bound to it, or the
    /// fallback where no usage is.
    pub open spec fn resolve(code: u8) -> Desktop {
        if exists|usage: Desktop| usage.code() == code {
            choose|usage: Desktop| usage.code() == code
        } else {
            Desktop::Undefined
        }
    }

    /// True of every usage but the fallback.
    pub open spec fn is_named(self) -> bool {
        self != Desktop::Undefined
    }

    /// The little-endian bytes of a usage's code.
    pub open spec fn le_bytes(self) -> Seq<u8> {
        le_bytes_u8(self.code())
    }

    /// The hash of a usage: the digest of the little-endian bytes of its
    /// code, and of nothing else.
    pub open spec fn digest(self) -> u32 {
        fnv_digest(self.le_bytes())
    }

    /// Classifies a wire code: gives the usage bound to it, or the fallback
    /// for a code that is reserved or unassigned. Every code is accepted.
    pub fn from_code(code: u8) -> (usage: Desktop)
        ensures
            usage == Desktop::resolve(code),
            usage.code() == code || usage == Desktop::Undefined,
    {
        let usage = match code {
            0x01 => Desktop::Pointer,
            0x02 => Desktop::Mouse,
            0x04 => Desktop::Joystick,
            0x05 => Desktop::GamePad,
            0x06 => Desktop::Keyboard,
            0x07 => Desktop::Keypad,
            0x08 => Desktop::MultiAxisController,
            0x09 => Desktop::TabletPcSystemControls,
            0x30 => Desktop::X,
            0x31 => Desktop::Y,
            0x32 => Desktop::Z,
            0x33 => Desktop::Rx,
            0x34 => Desktop::Ry,
            0x35 => Desktop::Rz,
            0x36 => Desktop::Slider,
            0x37 => Desktop::Dial,
            0x38 => Desktop::Wheel,
            0x39 => Desktop::HatSwitch,
            0x3A => Desktop::CountedBuffer,
            0x3B => Desktop::ByteCount,
            0x3C => Desktop::MotionWakeup,
            0x3D => Desktop::Start,
            0x3E => Desktop::Select,
            0x40 => Desktop::Vx,
            0x41 => Desktop::Vy,
            0x42 => Desktop::Vz,
            0x43 => Desktop::Vbrx,
            0x44 => Desktop::Vbry,
            0x45 => Desktop::Vbrz,
            0x46 => Desktop::Vno,
            0x47 => Desktop::FeatureNotification,
            0x48 => Desktop::ResolutionMultiplier,
            0x80 => Desktop::SystemControl,
            0x81 => Desktop::SystemPowerDown,
            0x82 => Desktop::SystemSleep,
            0x83 => Desktop::SystemWakeUp,
            0x84 => Desktop::SystemContextMenu,
            0x85 => Desktop::SystemMainMenu,
            0x86 => Desktop::SystemAppMenu,
            0x87 => Desktop::SystemHelpMenu,
            0x88 => Desktop::SystemMenuExit,
            0x89 => Desktop::SystemMenuSelect,
            0x8A => Desktop::SystemMenuRight,
            0x8B => Desktop::SystemMenuLeft,
            0x8C => Desktop::SystemMenuUp,
            0x8D => Desktop::SystemMenuDown,
            0x8E => Desktop::SystemColdRestart,
            0x8F => Desktop::SystemWarmRestart,
            0x90 => Desktop::DPadUp,
            0x91 => Desktop::DPadDown,
            0x92 => Desktop::DPadRight,
            0x93 => Desktop::DPadLeft,
            _ => Desktop::Undefined,
        };
        proof {
            if usage.code() == code {
                Desktop::lemma_round_trip(usage);
            } else {
                assert forall|other: Desktop| other.code() != code by {}
            }
        }
        usage
    }

    /// The wire code of a usage.
    pub fn to_code(self) -> (code: u8)
        ensures
            code == self.code(),
    {
        match self {
            Desktop::Undefined => 0x00,
            Desktop::Pointer => 0x01,
            Desktop::Mouse => 0x02,
            Desktop::Joystick => 0x04,
            Desktop::GamePad => 0x05,
            Desktop::Keyboard => 0x06,
            Desktop::Keypad => 0x07,
            Desktop::MultiAxisController => 0x08,
            Desktop::TabletPcSystemControls => 0x09,
            Desktop::X => 0x30,
            Desktop::Y => 0x31,
            Desktop::Z => 0x32,
            Desktop::Rx => 0x33,
            Desktop::Ry => 0x34,
            Desktop::Rz => 0x35,
            Desktop::Slider => 0x36,
            Desktop::Dial => 0x37,
            Desktop::Wheel => 0x38,
            Desktop::HatSwitch => 0x39,
            Desktop::CountedBuffer => 0x3A,
            Desktop::ByteCount => 0x3B,
            Desktop::MotionWakeup => 0x3C,
            Desktop::Start => 0x3D,
            Desktop::Select => 0x3E,
            Desktop::Vx => 0x40,
            Desktop::Vy => 0x41,
            Desktop::Vz => 0x42,
            Desktop::Vbrx => 0x43,
            Desktop::Vbry => 0x44,
            Desktop::Vbrz => 0x45,
            Desktop::Vno => 0x46,
            Desktop::FeatureNotification => 0x47,
            Desktop::ResolutionMultiplier => 0x48,
            Desktop::SystemControl => 0x80,
            Desktop::SystemPowerDown => 0x81,
            Desktop::SystemSleep => 0x82,
            Desktop::SystemWakeUp => 0x83,
            Desktop::SystemContextMenu => 0x84,
            Desktop::SystemMainMenu => 0x85,
            Desktop::SystemAppMenu => 0x86,
            Desktop::SystemHelpMenu => 0x87,
            Desktop::SystemMenuExit => 0x88,
            Desktop::SystemMenuSelect => 0x89,
            Desktop::SystemMenuRight => 0x8A,
            Desktop::SystemMenuLeft => 0x8B,
            Desktop::SystemMenuUp => 0x8C,
            Desktop::SystemMenuDown => 0x8D,
            Desktop::SystemColdRestart => 0x8E,
            Desktop::SystemWarmRestart => 0x8F,
            Desktop::DPadUp => 0x90,
            Desktop::DPadDown => 0x91,
            Desktop::DPadRight => 0x92,
            Desktop::DPadLeft => 0x93,
        }
    }

    /// The little-endian bytes of the usage's code, as fed to a hasher.
    pub fn to_le_bytes(self) -> (bytes: [u8; 1])
        ensures
            bytes@ == self.le_bytes(),
    {
        encode_u8(self.to_code())
    }

    /// Hashes the usage: the 32-bit Fowler-Noll-Vo digest of the
    /// little-endian bytes of its code.
    pub fn hash(&self) -> (digest: u32)
        ensures
            digest == self.digest(),
    {
        let bytes = self.to_le_bytes();
        fnv_hash(bytes.as_slice())
    }

    /// Distinct usages have distinct wire codes, the fallback included.
    pub proof fn lemma_codes_distinct(a: Desktop, b: Desktop)
        ensures
            a != b ==> a.code() != b.code(),
    {
    }

    /// A usage's own code resolves back to that usage. This holds of the
    /// fallback too, whose code is 0.
    pub proof fn lemma_round_trip(usage: Desktop)
        ensures
            Desktop::resolve(usage.code()) == usage,
    {
        let found = choose|other: Desktop| other.code() == usage.code();
        Desktop::lemma_codes_distinct(found, usage);
    }

    /// A code that no named usage is bound to resolves to the fallback.
    pub proof fn lemma_unbound_is_fallback(code: u8)
        requires
            forall|usage: Desktop| usage.is_named() ==> usage.code() != code,
        ensures
            Desktop::resolve(code) == Desktop::Undefined,
    {
        if exists|usage: Desktop| usage.code() == code {
            let found = choose|usage: Desktop| usage.code() == code;
            assert(!found.is_named());
        }
    }

    /// Every code resolves to the usage bound to it or to the fallback.
    pub proof fn lemma_resolve_total(code: u8)
        ensures
            Desktop::resolve(code).code() == code || Desktop::resolve(code) == Desktop::Undefined,
    {
    }

    /// Usages are ordered as their codes are.
    pub proof fn lemma_order_follows_code(a: Desktop, b: Desktop)
        ensures
            PartialOrdSpec::partial_cmp_spec(&a, &b) == Some(Ordering::Less) <==> a.code() < b.code(),
            PartialOrdSpec::partial_cmp_spec(&a, &b) == Some(Ordering::Equal) <==> a.code() == b.code(),
            PartialOrdSpec::partial_cmp_spec(&a, &b) == Some(Ordering::Greater) <==> a.code() > b.code(),
            PartialOrdSpec::partial_cmp_spec(&a, &b) == Some(Ordering::Equal) <==> a == b,
    {
        Desktop::lemma_codes_distinct(a, b);
    }

    /// Two usages are equal exactly when their hashes and their codes
    /// are: equal codes always hash alike.
    pub proof fn lemma_hash_follows_equality(a: Desktop, b: Desktop)
        ensures
            a == b <==> (a.digest() == b.digest() && a.code() == b.code()),
            a.code() == b.code() ==> a.digest() == b.digest(),
    {
        Desktop::lemma_codes_distinct(a, b);
    }
}

impl Default for Desktop {
    /// The fallback usage, for use where no code is known yet.
    fn default() -> (usage: Desktop)
        ensures
            usage == Desktop::Undefined,
    {
        Desktop::Undefined
    }
}

impl PartialOrd for Desktop {
    /// Compares two usages by their wire codes.
    fn partial_cmp(&self, other: &Desktop) -> (order: Option<Ordering>) {
        let left = self.to_code();
        let right = other.to_code();
        if left < right {
            Some(Ordering::Less)
        } else if left == right {
            Some(Ordering::Equal)
        } else {
            Some(Ordering::Greater)
        }
    }
}

impl PartialOrdSpecImpl for Desktop {
    open spec fn obeys_partial_cmp_spec() -> bool {
        true
    }

    open spec fn partial_cmp_spec(&self, other: &Desktop) -> Option<Ordering> {
        if self.code() < other.code() {
            Some(Ordering::Less)
        } else if self.code() == other.code() {
            Some(Ordering::Equal)
        } else {
            Some(Ordering::Greater)
        }
    }
}

impl From<u8> for Desktop {
    /// Classifies a wire code, as [`Desktop::from_code`] does.
    fn from(code: u8) -> (usage: Desktop) {
        Desktop::from_code(code)
    }
}

impl FromSpecImpl<u8> for Desktop {
    open spec fn obeys_from_spec() -> bool {
        true
    }

    open spec fn from_spec(code: u8) -> Desktop {
        Desktop::resolve(code)
    }
}

impl From<Desktop> for u8 {
    /// The wire code of a usage, as [`Desktop::to_code`] gives it.
    fn from(usage: Desktop) -> (code: u8) {
        usage.to_code()
    }
}

impl FromSpecImpl<Desktop> for u8 {
    open spec fn obeys_from_spec() -> bool {
        true
    }

    open spec fn from_spec(usage: Desktop) -> u8 {
        usage.code()
    }
}

} // verus!
